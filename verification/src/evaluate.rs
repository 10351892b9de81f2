//! Cutting-force evaluation: per-tool governing force, and the worst case
//! across the whole catalog.
//!
//! For each tool the evaluator derives the desired rotational speed, the
//! tangential cutting force the tool's geometry demands, and the torque that
//! force requires at the tool's radius. If that demand exceeds what the
//! spindle can deliver at the (clamped) desired speed, the governing force
//! for the tool is capped at the force corresponding to the spindle's torque
//! ceiling; otherwise the tool's own demand stands. The aggregator folds the
//! catalog left to right under a strict greater-than comparison, so the
//! first tool reaching the running maximum wins ties.

use vstd::prelude::*;
use core::cmp::Ordering;
use crate::arith::{lemma_div_bound, lemma_mul_le};
use crate::physics::{
    force_of_torque_un, lemma_diameter_view_injective, lemma_force_view_injective,
    lemma_length_view_injective, lemma_torque_view_injective, torque_of_force_pnm, Force, Power,
    Torque,
};
use crate::spindle::{spindle_torque_pnm, Spindle, SPINDLE_TORQUE_PNM_MAX};
use crate::tools::{
    catalog, ceil_mm, desired_mrpm_of, feed_defined, lemma_tool_force_bounds, tool_force_un, Tool,
    ToolView, TOOL_FORCE_UN_MAX,
};

verus! {

/// Rated power of the machine's spindle: 1500 W, in milliwatts.
pub const SPINDLE_POWER_MW: u64 = 1_500_000;

/// A failure of the evaluation pipeline. Both variants are fatal data or
/// geometry errors: the catalog and constants are fixed, so neither is
/// recoverable at run time.
#[derive(Debug, Clone, Copy, PartialEq, Eq, Structural)]
pub enum EvaluationError {
    /// A tool's diameter, rounded up to the next whole millimetre, has no
    /// entry in the feed-per-tooth table.
    MissingFeedEntry { diameter_mm: u64 },
    /// A tool's diameter is too small to yield a positive radius, so the
    /// torque and force derivations at that radius are undefined.
    DegenerateGeometry { diameter_nm: u64 },
}

/// Whether a tool can be evaluated at all: its radius must be positive and
/// the feed table must cover its rounded-up diameter.
pub open spec fn tool_ok(t: ToolView) -> bool {
    &&& t.diameter_nm / 2 >= 1
    &&& feed_defined(ceil_mm(t.diameter_nm))
}

/// The error the evaluation of a tool reports, for a tool that cannot be
/// evaluated: degenerate geometry is detected before the feed lookup.
pub open spec fn spec_tool_error(t: ToolView) -> EvaluationError {
    if t.diameter_nm / 2 < 1 {
        EvaluationError::DegenerateGeometry { diameter_nm: t.diameter_nm as u64 }
    } else {
        EvaluationError::MissingFeedEntry { diameter_mm: ceil_mm(t.diameter_nm) as u64 }
    }
}

/// The torque, in piconewton-metres, that a tool's tangential cutting force
/// demands at the tool's radius.
pub open spec fn required_torque_pnm(t: ToolView) -> int {
    torque_of_force_pnm(tool_force_un(t), t.diameter_nm / 2)
}

/// The torque, in piconewton-metres, the spindle can deliver at the tool's
/// desired (clamped) rotational speed.
pub open spec fn spindle_torque_for(power_mw: int, t: ToolView) -> int {
    spindle_torque_pnm(power_mw, desired_mrpm_of(t.diameter_nm))
}

/// Whether the spindle cannot deliver the torque the tool's geometry
/// demands, so the governing force must be capped.
pub open spec fn is_capped(power_mw: int, t: ToolView) -> bool {
    required_torque_pnm(t) > spindle_torque_for(power_mw, t)
}

/// The governing tangential cutting force of a tool, in micronewtons: the
/// tool's own demand, or, when the spindle cannot deliver the required
/// torque, the force corresponding to the spindle's torque ceiling at the
/// tool's radius.
pub open spec fn governing_force_un(power_mw: int, t: ToolView) -> int {
    if is_capped(power_mw, t) {
        force_of_torque_un(spindle_torque_for(power_mw, t), t.diameter_nm / 2)
    } else {
        tool_force_un(t)
    }
}

/// A tangential cutting force together with its provenance: either the
/// force the tool's cutting geometry actually demands, or the force
/// corresponding to the spindle's torque ceiling, used when the tool's
/// demand would exceed it. Comparisons go purely by the wrapped magnitude,
/// independent of the tag.
#[derive(Debug, Clone, Copy)]
pub enum TangentialCuttingForce {
    PerToolRequirements(Force),
    PerMaxSpindleTorque(Force),
}

impl TangentialCuttingForce {
    /// The magnitude of the wrapped force, in micronewtons, independent of
    /// the tag.
    pub open spec fn spec_value_un(self) -> int {
        match self {
            TangentialCuttingForce::PerToolRequirements(f) => f@ as int,
            TangentialCuttingForce::PerMaxSpindleTorque(f) => f@ as int,
        }
    }

    /// The wrapped force, independent of the tag.
    pub fn value(self) -> (r: Force)
        ensures
            r@ == self.spec_value_un(),
    {
        match self {
            TangentialCuttingForce::PerToolRequirements(value) => value,
            TangentialCuttingForce::PerMaxSpindleTorque(value) => value,
        }
    }
}

impl PartialEq for TangentialCuttingForce {
    /// Governing forces are equal when the wrapped magnitudes are,
    /// independent of the tag.
    fn eq(&self, other: &Self) -> bool {
        self.value().value_un() == other.value().value_un()
    }
}

impl vstd::std_specs::cmp::PartialEqSpecImpl for TangentialCuttingForce {
    open spec fn obeys_eq_spec() -> bool {
        true
    }

    open spec fn eq_spec(&self, other: &TangentialCuttingForce) -> bool {
        self.spec_value_un() == other.spec_value_un()
    }
}

impl PartialOrd for TangentialCuttingForce {
    /// Governing forces are ordered by the wrapped magnitude, independent
    /// of the tag, for the maximum-force search.
    fn partial_cmp(&self, other: &Self) -> Option<Ordering> {
        let a = self.value().value_un();
        let b = other.value().value_un();
        if a < b {
            Some(Ordering::Less)
        } else if a == b {
            Some(Ordering::Equal)
        } else {
            Some(Ordering::Greater)
        }
    }
}

impl vstd::std_specs::cmp::PartialOrdSpecImpl for TangentialCuttingForce {
    open spec fn obeys_partial_cmp_spec() -> bool {
        true
    }

    open spec fn partial_cmp_spec(&self, other: &TangentialCuttingForce) -> Option<Ordering> {
        if self.spec_value_un() < other.spec_value_un() {
            Some(Ordering::Less)
        } else if self.spec_value_un() == other.spec_value_un() {
            Some(Ordering::Equal)
        } else {
            Some(Ordering::Greater)
        }
    }
}

/// The outcome of evaluating one tool against the spindle: the tool, the
/// governing tangential cutting force with its provenance, and, for
/// diagnosis, the torque the tool's geometry demands next to the torque the
/// spindle can deliver at the tool's desired (clamped) speed.
#[derive(Debug, Clone, Copy, PartialEq)]
pub struct Evaluation {
    pub tool: Tool,
    pub force: TangentialCuttingForce,
    pub tool_torque: Torque,
    pub spindle_torque: Torque,
}

/// What the evaluation of one tool must report: the tool itself, the two
/// torques, and the governing force under the right tag.
pub open spec fn eval_matches(power_mw: int, t: ToolView, ev: Evaluation) -> bool {
    &&& ev.tool@ == t
    &&& ev.tool_torque@ == required_torque_pnm(t)
    &&& ev.spindle_torque@ == spindle_torque_for(power_mw, t)
    &&& if is_capped(power_mw, t) {
        ev.force matches TangentialCuttingForce::PerMaxSpindleTorque(f) && f@ == governing_force_un(
            power_mw,
            t,
        )
    } else {
        ev.force matches TangentialCuttingForce::PerToolRequirements(f) && f@ == governing_force_un(
            power_mw,
            t,
        )
    }
}

/// Evaluate one tool against the spindle: derive its desired speed, its
/// tangential cutting force and the torque that force requires, compare
/// against the spindle's deliverable torque, and report the governing force
/// with its provenance. Fails exactly on tools with degenerate geometry or
/// a feed-table gap.
pub fn evaluate_tool(spindle: &Spindle, tool: &Tool) -> (r: Result<Evaluation, EvaluationError>)
    requires
        tool@.wf(),
    ensures
        match r {
            Ok(ev) => tool_ok(tool@) && ev.tool == *tool && eval_matches(
                spindle@ as int,
                tool@,
                ev,
            ),
            Err(e) => !tool_ok(tool@) && e == spec_tool_error(tool@),
        },
{
    let radius = tool.diameter.to_radius();
    if radius.to_length().value_nm() == 0 {
        return Err(
            EvaluationError::DegenerateGeometry {
                diameter_nm: tool.diameter.to_length().value_nm(),
            },
        );
    }
    let tangential_force = match tool.tangential_cutting_force() {
        Ok(f) => f,
        Err(e) => {
            return Err(e);
        },
    };
    proof {
        lemma_tool_force_bounds(tool@);
        lemma_mul_le(
            tangential_force@ as int,
            TOOL_FORCE_UN_MAX as int,
            radius@ as int,
            500_000_000,
        );
        lemma_div_bound(
            (tangential_force@ as int) * (radius@ as int),
            5_000_000_000_000_000_000_000,
            1000,
            1000,
        );
    }
    let tool_torque = tangential_force.to_torque(radius);
    let rpm = tool.desired_rpm();
    let spindle_torque = spindle.torque(rpm);
    if tool_torque > spindle_torque {
        proof {
            lemma_div_bound(
                (spindle_torque@ as int) * 1000,
                (SPINDLE_TORQUE_PNM_MAX as int) * 1000,
                radius@ as int,
                1,
            );
        }
        let capped = spindle_torque.to_force(radius);
        Ok(
            Evaluation {
                tool: *tool,
                force: TangentialCuttingForce::PerMaxSpindleTorque(capped),
                tool_torque,
                spindle_torque,
            },
        )
    } else {
        Ok(
            Evaluation {
                tool: *tool,
                force: TangentialCuttingForce::PerToolRequirements(tangential_force),
                tool_torque,
                spindle_torque,
            },
        )
    }
}

/// The views of a sequence of tools.
pub open spec fn views_of(s: Seq<Tool>) -> Seq<ToolView> {
    s.map_values(|t: Tool| t@)
}

/// The index of the governing (worst-case) tool of a catalog: the result of
/// a stable left-to-right fold under strict greater-than on the governing
/// force, so the earliest of equally forceful tools wins.
pub open spec fn governing_idx(power_mw: int, s: Seq<ToolView>) -> int
    decreases s.len(),
{
    if s.len() <= 1 {
        0
    } else {
        let j = governing_idx(power_mw, s.drop_last());
        if governing_force_un(power_mw, s.last()) > governing_force_un(power_mw, s[j]) {
            s.len() - 1
        } else {
            j
        }
    }
}

/// The governing index selects the maximum governing force of the catalog,
/// and ties are broken by catalog order: every tool before the winner is
/// strictly weaker, every tool anywhere is no stronger.
pub proof fn lemma_governing_idx_is_first_max(power_mw: int, s: Seq<ToolView>)
    requires
        s.len() >= 1,
    ensures
        0 <= governing_idx(power_mw, s) < s.len(),
        forall|j: int|
            0 <= j < s.len() ==> governing_force_un(power_mw, #[trigger] s[j])
                <= governing_force_un(power_mw, s[governing_idx(power_mw, s)]),
        forall|j: int|
            0 <= j < governing_idx(power_mw, s) ==> governing_force_un(power_mw, #[trigger] s[j])
                < governing_force_un(power_mw, s[governing_idx(power_mw, s)]),
    decreases s.len(),
{
    if s.len() > 1 {
        let s0 = s.drop_last();
        lemma_governing_idx_is_first_max(power_mw, s0);
        let j0 = governing_idx(power_mw, s0);
        let g = governing_idx(power_mw, s);
        assert(forall|j: int| 0 <= j < s.len() - 1 ==> #[trigger] s0[j] == s[j]);
        if governing_force_un(power_mw, s.last()) > governing_force_un(power_mw, s0[j0]) {
            assert(g == s.len() - 1);
            assert forall|j: int| 0 <= j < s.len() implies governing_force_un(
                power_mw,
                #[trigger] s[j],
            ) <= governing_force_un(power_mw, s[g]) by {
                if j < s.len() - 1 {
                    assert(s[j] == s0[j]);
                    assert(governing_force_un(power_mw, s0[j]) <= governing_force_un(
                        power_mw,
                        s0[j0],
                    ));
                }
            }
            assert forall|j: int| 0 <= j < g implies governing_force_un(power_mw, #[trigger] s[j])
                < governing_force_un(power_mw, s[g]) by {
                assert(s[j] == s0[j]);
                assert(governing_force_un(power_mw, s0[j]) <= governing_force_un(power_mw, s0[j0]));
            }
        } else {
            assert(g == j0);
            assert forall|j: int| 0 <= j < s.len() implies governing_force_un(
                power_mw,
                #[trigger] s[j],
            ) <= governing_force_un(power_mw, s[g]) by {
                if j < s.len() - 1 {
                    assert(s[j] == s0[j]);
                    assert(governing_force_un(power_mw, s0[j]) <= governing_force_un(
                        power_mw,
                        s0[j0],
                    ));
                }
            }
            assert forall|j: int| 0 <= j < g implies governing_force_un(power_mw, #[trigger] s[j])
                < governing_force_un(power_mw, s[g]) by {
                assert(s[j] == s0[j]);
                assert(governing_force_un(power_mw, s0[j]) < governing_force_un(power_mw, s0[j0]));
            }
        }
    }
}

/// The first index of a tool that cannot be evaluated, witnessing which
/// error a catalog evaluation reports.
pub open spec fn first_failure_at(s: Seq<ToolView>, i: int) -> bool {
    &&& 0 <= i < s.len()
    &&& !tool_ok(s[i])
    &&& forall|j: int| 0 <= j < i ==> tool_ok(#[trigger] s[j])
}

/// Evaluate every tool of a catalog, in catalog order, and select the
/// governing worst case: the first tool achieving the maximum governing
/// force. Fails with the error of the first tool that cannot be evaluated.
pub fn evaluate_catalog(spindle: &Spindle, tools: &Vec<Tool>) -> (r: Result<
    Evaluation,
    EvaluationError,
>)
    requires
        tools@.len() >= 1,
        forall|i: int| 0 <= i < tools@.len() ==> (#[trigger] tools@[i])@.wf(),
    ensures
        match r {
            Ok(ev) => {
                &&& forall|i: int| 0 <= i < tools@.len() ==> tool_ok((#[trigger] tools@[i])@)
                &&& ev.tool == tools@[governing_idx(spindle@ as int, views_of(tools@))]
                &&& eval_matches(
                    spindle@ as int,
                    views_of(tools@)[governing_idx(spindle@ as int, views_of(tools@))],
                    ev,
                )
            },
            Err(e) => exists|i: int|
                #[trigger] first_failure_at(views_of(tools@), i) && e == spec_tool_error(
                    views_of(tools@)[i],
                ),
        },
{
    let ghost power = spindle@ as int;
    let ghost vs = views_of(tools@);
    proof {
        assert(vs.len() == tools@.len());
        assert(forall|i: int| 0 <= i < tools@.len() ==> #[trigger] vs[i] == tools@[i]@);
    }
    let first = match evaluate_tool(spindle, &tools[0]) {
        Ok(ev) => ev,
        Err(e) => {
            proof {
                assert(first_failure_at(vs, 0));
            }
            return Err(e);
        },
    };
    let mut best = first;
    let mut i: usize = 1;
    proof {
        assert(vs.take(1).len() == 1);
        assert(vs.take(1)[0] == vs[0]);
    }
    while i < tools.len()
        invariant
            1 <= i <= tools@.len(),
            vs == views_of(tools@),
            vs.len() == tools@.len(),
            power == spindle@ as int,
            forall|k: int| 0 <= k < tools@.len() ==> (#[trigger] tools@[k])@.wf(),
            forall|k: int| 0 <= k < tools@.len() ==> #[trigger] vs[k] == tools@[k]@,
            forall|k: int| 0 <= k < i ==> tool_ok(#[trigger] vs[k]),
            0 <= governing_idx(power, vs.take(i as int)) < i,
            best.tool == tools@[governing_idx(power, vs.take(i as int))],
            eval_matches(power, vs[governing_idx(power, vs.take(i as int))], best),
        decreases tools@.len() - i,
    {
        let ghost old_gidx = governing_idx(power, vs.take(i as int));
        match evaluate_tool(spindle, &tools[i]) {
            Ok(ev) => {
                proof {
                    assert(vs.take(i + 1).drop_last() =~= vs.take(i as int));
                    assert(vs.take(i + 1).last() == vs[i as int]);
                    lemma_governing_idx_is_first_max(power, vs.take(i + 1));
                }
                if ev.force.value().value_un() > best.force.value().value_un() {
                    best = ev;
                }
                proof {
                    let new_gidx = governing_idx(power, vs.take(i + 1));
                    assert(vs.take(i + 1)[old_gidx] == vs[old_gidx]);
                    assert(vs.take(i + 1)[i as int] == vs[i as int]);
                    assert(new_gidx == if governing_force_un(power, vs[i as int])
                        > governing_force_un(power, vs[old_gidx]) {
                        i as int
                    } else {
                        old_gidx
                    });
                }
            },
            Err(e) => {
                proof {
                    assert(first_failure_at(vs, i as int));
                }
                return Err(e);
            },
        }
        i += 1;
    }
    proof {
        assert(vs.take(tools@.len() as int) =~= vs);
        assert forall|k: int| 0 <= k < tools@.len() implies tool_ok((#[trigger] tools@[k])@) by {
            assert(vs[k] == tools@[k]@);
            assert(tool_ok(vs[k]));
        }
    }
    Ok(best)
}

/// What the full, fixed evaluation must report: the governing tool of the
/// fixed catalog under the fixed 1500 W spindle, with its governing force,
/// provenance, and the two torques.
pub open spec fn full_evaluation(ev: Evaluation) -> bool {
    eval_matches(
        SPINDLE_POWER_MW as int,
        catalog()[governing_idx(SPINDLE_POWER_MW as int, catalog())],
        ev,
    )
}

/// The full evaluation: build the fixed 1500 W spindle and the fixed tool
/// catalog, evaluate every tool, and report the governing worst case. The
/// catalog is known good, so the evaluation always succeeds.
pub fn evaluate() -> (r: Result<Evaluation, EvaluationError>)
    ensures
        r matches Ok(ev) && full_evaluation(ev),
{
    let spindle = Spindle::new(Power::from_value_w(1500));
    let tools = Tool::tools();
    proof {
        assert(views_of(tools@) =~= catalog());
        assert forall|i: int| 0 <= i < catalog().len() implies tool_ok(
            #[trigger] catalog()[i],
        ) by {
            assert(catalog()[i] == crate::tools::catalog_at(i));
        }
    }
    match evaluate_catalog(&spindle, &tools) {
        Ok(ev) => Ok(ev),
        Err(e) => {
            proof {
                assert(false);
            }
            Err(e)
        },
    }
}

/// Running the full evaluation twice with unchanged inputs yields identical
/// output: every field of the report is pinned by [`full_evaluation`], so
/// any two reports of the full evaluation are equal.
pub proof fn lemma_evaluation_deterministic(a: Evaluation, b: Evaluation)
    requires
        full_evaluation(a),
        full_evaluation(b),
    ensures
        a == b,
{
    lemma_diameter_view_injective(a.tool.diameter, b.tool.diameter);
    lemma_length_view_injective(a.tool.length_cutting_edge, b.tool.length_cutting_edge);
    lemma_length_view_injective(a.tool.length_total, b.tool.length_total);
    lemma_torque_view_injective(a.tool_torque, b.tool_torque);
    lemma_torque_view_injective(a.spindle_torque, b.spindle_torque);
    let t = catalog()[governing_idx(SPINDLE_POWER_MW as int, catalog())];
    if is_capped(SPINDLE_POWER_MW as int, t) {
        let fa = a.force->PerMaxSpindleTorque_0;
        let fb = b.force->PerMaxSpindleTorque_0;
        lemma_force_view_injective(fa, fb);
    } else {
        let fa = a.force->PerToolRequirements_0;
        let fb = b.force->PerToolRequirements_0;
        lemma_force_view_injective(fa, fb);
    }
}

} // verus!
