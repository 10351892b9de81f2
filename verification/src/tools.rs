//! The tool catalog and the per-tool cutting model: feed per tooth, desired
//! spindle speed, and worst-case tangential cutting force.

use vstd::prelude::*;
use vstd::arithmetic::div_mod::lemma_div_pos_is_pos;
use crate::arith::{lemma_div_bound, lemma_mul_le};
use crate::evaluate::EvaluationError;
use crate::physics::{mrpm_of_speed, Diameter, Force, Length, RotationalSpeed, Speed, PI_NUM};

verus! {

/// Ultimate tensile strength of aluminium, in pascals.
pub const SIGMA_ALUMINIUM_PA: u64 = 483_000_000;

/// Numerator of the engagement factor: the fraction of the cutter diameter
/// engaged radially in the cut, fixed at 1/4 (25%, the side-milling worst
/// case).
pub const ENGAGEMENT_FACTOR_NUM: u64 = 1;

/// Denominator of the engagement factor.
pub const ENGAGEMENT_FACTOR_DEN: u64 = 4;

/// Numerator of the cutting tool wear factor, fixed at 8/5 (1.6, a
/// worst-case wear allowance).
pub const WEAR_FACTOR_NUM: u64 = 8;

/// Denominator of the cutting tool wear factor.
pub const WEAR_FACTOR_DEN: u64 = 5;

/// Fixed cutting speed for aluminium: 500 m/min, in nanometres per minute.
pub const CUTTING_SPEED_NM_PER_MIN: u64 = 500_000_000_000;

/// Largest dimension, in nanometres, a well-formed tool record may carry
/// (1 m). The bound keeps every intermediate product of the force and
/// torque derivations within 128 bits.
pub const TOOL_DIMENSION_NM_MAX: u64 = 1_000_000_000;

/// Largest flute count a well-formed tool record may carry.
pub const TOOL_FLUTES_MAX: u64 = 1000;

/// Largest tangential cutting force, in micronewtons, that a well-formed
/// tool can demand.
pub const TOOL_FORCE_UN_MAX: u64 = 10_000_000_000_000;

/// The mathematical image of a tool record: its dimensions in nanometres
/// and its flute count.
pub struct ToolView {
    pub diameter_nm: int,
    pub cutting_edge_nm: int,
    pub total_nm: int,
    pub flutes: int,
}

impl ToolView {
    /// A well-formed tool record: every dimension and the flute count stays
    /// within the fixed-point bounds.
    pub open spec fn wf(self) -> bool {
        &&& 0 <= self.diameter_nm <= TOOL_DIMENSION_NM_MAX
        &&& 0 <= self.cutting_edge_nm <= TOOL_DIMENSION_NM_MAX
        &&& 0 <= self.total_nm <= TOOL_DIMENSION_NM_MAX
        &&& 0 <= self.flutes <= TOOL_FLUTES_MAX
    }
}

/// A diameter in nanometres rounded up to the next whole millimetre: the
/// deliberate worst-case bias of the feed-per-tooth lookup.
pub open spec fn ceil_mm(diameter_nm: int) -> int {
    (diameter_nm + 999_999) / 1_000_000
}

/// Whether the feed-per-tooth table has an entry for a whole-millimetre
/// diameter. The table is known incomplete by design: diameters whose
/// ceiling is 7, 9, 11 or beyond 12 have no entry.
pub open spec fn feed_defined(mm: int) -> bool {
    ||| mm == 1
    ||| mm == 2
    ||| mm == 3
    ||| mm == 4
    ||| mm == 5
    ||| mm == 6
    ||| mm == 8
    ||| mm == 10
    ||| mm == 12
}

/// The feed-per-tooth table, keyed by whole millimetres of diameter, with
/// values in nanometres; zero outside the table's domain.
pub open spec fn feed_nm(mm: int) -> int {
    if mm == 1 {
        10_000
    } else if mm == 2 {
        20_000
    } else if mm == 3 {
        25_000
    } else if mm == 4 || mm == 5 || mm == 6 {
        50_000
    } else if mm == 8 {
        64_000
    } else if mm == 10 {
        80_000
    } else if mm == 12 {
        100_000
    } else {
        0
    }
}

/// Every feed the table defines lies between 10 and 100 micrometres, and
/// outside the table the feed is zero.
pub proof fn lemma_feed_nm_bounds(mm: int)
    ensures
        0 <= feed_nm(mm) <= 100_000,
        feed_defined(mm) ==> 10_000 <= feed_nm(mm),
{
}

/// Number of teeth engaged in the workpiece, in the worst case: half the
/// flutes, rounded up.
pub open spec fn engaged_teeth(flutes: int) -> int {
    (flutes + 1) / 2
}

/// The empirical milling-force model `Ft = sigma * A * Zc * Ef * Tf`, in
/// micronewtons: ultimate tensile strength times the uncut chip
/// cross-section (axial depth of cut times feed per tooth) times the number
/// of engaged teeth times the engagement and wear factors.
pub open spec fn cutting_force_un(edge_nm: int, feed: int, flutes: int) -> int {
    (SIGMA_ALUMINIUM_PA * edge_nm * feed * engaged_teeth(flutes) * ENGAGEMENT_FACTOR_NUM
        * WEAR_FACTOR_NUM) / (ENGAGEMENT_FACTOR_DEN * WEAR_FACTOR_DEN * 1_000_000_000_000)
}

/// The tangential cutting force a tool record demands: the force model
/// applied to its cutting-edge length (the worst-case axial depth of cut),
/// its feed per tooth, and its flute count.
pub open spec fn tool_force_un(t: ToolView) -> int {
    cutting_force_un(t.cutting_edge_nm, feed_nm(ceil_mm(t.diameter_nm)), t.flutes)
}

/// The rotational speed, in milli-RPM, at which a tool of the given
/// diameter reaches the fixed aluminium cutting speed at its circumference.
pub open spec fn desired_mrpm_of(diameter_nm: int) -> int {
    mrpm_of_speed(CUTTING_SPEED_NM_PER_MIN as int, diameter_nm / 2)
}

/// The force a well-formed tool demands stays within
/// [`TOOL_FORCE_UN_MAX`].
pub proof fn lemma_tool_force_bounds(t: ToolView)
    requires
        t.wf(),
    ensures
        0 <= tool_force_un(t) <= TOOL_FORCE_UN_MAX,
{
    let mm = ceil_mm(t.diameter_nm);
    lemma_feed_nm_bounds(mm);
    let feed = feed_nm(mm);
    let zc = engaged_teeth(t.flutes);
    let a1 = (SIGMA_ALUMINIUM_PA as int) * t.cutting_edge_nm;
    let a2 = a1 * feed;
    let a3 = a2 * zc;
    lemma_mul_le(a1, 483_000_000_000_000_000, feed, 100_000);
    lemma_mul_le(a2, 48_300_000_000_000_000_000_000, zc, 500);
    let num = a3 * (ENGAGEMENT_FACTOR_NUM as int) * (WEAR_FACTOR_NUM as int);
    lemma_div_pos_is_pos(num, 20_000_000_000_000);
    lemma_div_bound(
        num,
        193_200_000_000_000_000_000_000_000,
        20_000_000_000_000,
        20_000_000_000_000,
    );
}

/// A catalog record: a milling tool with its cutting diameter, its
/// cutting-edge and total lengths, and its number of flutes.
#[derive(Debug, Clone, Copy, PartialEq, Eq, Structural)]
pub struct Tool {
    pub diameter: Diameter,
    pub length_cutting_edge: Length,
    pub length_total: Length,
    pub num_flutes: u64,
}

impl View for Tool {
    type V = ToolView;

    open spec fn view(&self) -> ToolView {
        ToolView {
            diameter_nm: self.diameter@ as int,
            cutting_edge_nm: self.length_cutting_edge@ as int,
            total_nm: self.length_total@ as int,
            flutes: self.num_flutes as int,
        }
    }
}

/// One record of the fixed catalog, dimensions in nanometres.
pub open spec fn tool_record(d_nm: int, edge_nm: int, total_nm: int, flutes: int) -> ToolView {
    ToolView { diameter_nm: d_nm, cutting_edge_nm: edge_nm, total_nm: total_nm, flutes: flutes }
}

/// The fixed tool catalog, record by record: a representative selection of
/// shank diameters from 0.4 mm to 12 mm, chosen to bracket worst-case
/// small-diameter, long-reach combinations.
pub open spec fn catalog_at(i: int) -> ToolView {
    if i == 0 {
        tool_record(400_000, 2_000_000, 38_000_000, 2)
    } else if i == 1 {
        tool_record(500_000, 2_500_000, 38_000_000, 2)
    } else if i == 2 {
        tool_record(600_000, 3_000_000, 38_000_000, 2)
    } else if i == 3 {
        tool_record(1_500_000, 12_000_000, 38_000_000, 2)
    } else if i == 4 {
        tool_record(1_600_000, 5_000_000, 38_000_000, 2)
    } else if i == 5 {
        tool_record(1_800_000, 6_000_000, 38_000_000, 2)
    } else if i == 6 {
        tool_record(2_000_000, 12_000_000, 38_000_000, 2)
    } else if i == 7 {
        tool_record(2_400_000, 7_000_000, 38_000_000, 2)
    } else if i == 8 {
        tool_record(2_500_000, 15_000_000, 38_000_000, 2)
    } else if i == 9 {
        tool_record(3_175_000, 5_000_000, 8_000_000, 2)
    } else if i == 10 {
        tool_record(3_000_000, 22_000_000, 50_000_000, 1)
    } else if i == 11 {
        tool_record(6_000_000, 26_000_000, 68_000_000, 1)
    } else if i == 12 {
        tool_record(6_000_000, 21_000_000, 80_000_000, 1)
    } else if i == 13 {
        tool_record(10_000_000, 26_000_000, 110_000_000, 1)
    } else if i == 14 {
        tool_record(2_000_000, 8_000_000, 50_000_000, 1)
    } else if i == 15 {
        tool_record(1_000_000, 5_000_000, 40_000_000, 1)
    } else if i == 16 {
        tool_record(2_000_000, 5_000_000, 40_000_000, 1)
    } else if i == 17 {
        tool_record(4_000_000, 21_000_000, 70_000_000, 2)
    } else if i == 18 {
        tool_record(5_000_000, 30_000_000, 75_000_000, 2)
    } else if i == 19 {
        tool_record(6_000_000, 30_000_000, 75_000_000, 2)
    } else if i == 20 {
        tool_record(8_000_000, 40_000_000, 100_000_000, 2)
    } else if i == 21 {
        tool_record(10_000_000, 40_000_000, 100_000_000, 2)
    } else if i == 22 {
        tool_record(12_000_000, 32_000_000, 74_000_000, 2)
    } else {
        tool_record(2_000_000, 6_000_000, 39_000_000, 1)
    }
}

/// The fixed tool catalog as a sequence of 24 records, in insertion order.
/// The order matters only for the deterministic tie-breaking of the
/// maximum-force search.
pub open spec fn catalog() -> Seq<ToolView> {
    Seq::new(24, |i: int| catalog_at(i))
}

/// Build one tool of the catalog from dimensions in micrometres.
fn catalog_tool(d_um: u64, edge_um: u64, total_um: u64, flutes: u64) -> (r: Tool)
    requires
        d_um <= 1_000_000,
        edge_um <= 1_000_000,
        total_um <= 1_000_000,
        flutes <= TOOL_FLUTES_MAX,
    ensures
        r@ == tool_record(d_um * 1000, edge_um * 1000, total_um * 1000, flutes as int),
        r@.wf(),
{
    Tool {
        diameter: Diameter::from_length(Length::from_value_um(d_um)),
        length_cutting_edge: Length::from_value_um(edge_um),
        length_total: Length::from_value_um(total_um),
        num_flutes: flutes,
    }
}

impl Tool {
    /// The fixed tool catalog, in its defining order.
    pub fn tools() -> (r: Vec<Tool>)
        ensures
            r@.len() == catalog().len(),
            forall|i: int| 0 <= i < r@.len() ==> (#[trigger] r@[i])@ == catalog()[i],
            forall|i: int| 0 <= i < r@.len() ==> (#[trigger] r@[i])@.wf(),
    {
        let mut tools: Vec<Tool> = Vec::new();
        tools.push(catalog_tool(400, 2000, 38000, 2));
        tools.push(catalog_tool(500, 2500, 38000, 2));
        tools.push(catalog_tool(600, 3000, 38000, 2));
        tools.push(catalog_tool(1500, 12000, 38000, 2));
        tools.push(catalog_tool(1600, 5000, 38000, 2));
        tools.push(catalog_tool(1800, 6000, 38000, 2));
        tools.push(catalog_tool(2000, 12000, 38000, 2));
        tools.push(catalog_tool(2400, 7000, 38000, 2));
        tools.push(catalog_tool(2500, 15000, 38000, 2));
        tools.push(catalog_tool(3175, 5000, 8000, 2));
        tools.push(catalog_tool(3000, 22000, 50000, 1));
        tools.push(catalog_tool(6000, 26000, 68000, 1));
        tools.push(catalog_tool(6000, 21000, 80000, 1));
        tools.push(catalog_tool(10000, 26000, 110000, 1));
        tools.push(catalog_tool(2000, 8000, 50000, 1));
        tools.push(catalog_tool(1000, 5000, 40000, 1));
        tools.push(catalog_tool(2000, 5000, 40000, 1));
        tools.push(catalog_tool(4000, 21000, 70000, 2));
        tools.push(catalog_tool(5000, 30000, 75000, 2));
        tools.push(catalog_tool(6000, 30000, 75000, 2));
        tools.push(catalog_tool(8000, 40000, 100000, 2));
        tools.push(catalog_tool(10000, 40000, 100000, 2));
        tools.push(catalog_tool(12000, 32000, 74000, 2));
        tools.push(catalog_tool(2000, 6000, 39000, 1));
        proof {
            assert forall|i: int| 0 <= i < tools@.len() implies (#[trigger] tools@[i])@
                == catalog()[i] by {
                assert(catalog()[i] == catalog_at(i));
            }
        }
        tools
    }

    /// The rotational speed at which this tool reaches the fixed aluminium
    /// cutting speed of 500 m/min at its circumference. Not clamped here:
    /// clamping happens only when the spindle evaluates torque at this
    /// speed.
    pub fn desired_rpm(&self) -> (r: RotationalSpeed)
        requires
            self@.wf(),
            self@.diameter_nm / 2 >= 1,
        ensures
            r@ == desired_mrpm_of(self@.diameter_nm),
    {
        let cutting_speed = Speed::from_value_m_per_min(500);
        let radius = self.diameter.to_radius();
        proof {
            assert(radius@ >= 1);
            let num = (CUTTING_SPEED_NM_PER_MIN as int) * 1000 * 1_000_000_000_000_000;
            let den = 2 * (PI_NUM as int) * (radius@ as int);
            assert(den >= 6_283_185_307_179_586) by (nonlinear_arith)
                requires
                    den == 2 * (PI_NUM as int) * (radius@ as int),
                    radius@ >= 1,
            ;
            lemma_div_bound(
                num,
                500_000_000_000_000_000_000_000_000_000,
                den,
                6_283_185_307_179_586,
            );
        }
        cutting_speed.to_rotational_speed(radius)
    }

    /// The feed per tooth for this tool, looked up by its diameter rounded
    /// up to the next whole millimetre. A diameter whose ceiling has no
    /// table entry is a fatal data gap, reported with the missing
    /// millimetre key.
    pub fn feed_per_tooth(&self) -> (r: Result<Length, EvaluationError>)
        requires
            self@.wf(),
        ensures
            match r {
                Ok(l) => feed_defined(ceil_mm(self@.diameter_nm)) && l@ == feed_nm(
                    ceil_mm(self@.diameter_nm),
                ),
                Err(e) => !feed_defined(ceil_mm(self@.diameter_nm)) && e
                    == (EvaluationError::MissingFeedEntry {
                    diameter_mm: ceil_mm(self@.diameter_nm) as u64,
                }),
            },
    {
        let diameter_nm = self.diameter.to_length().value_nm();
        let mm = (diameter_nm + 999_999) / 1_000_000;
        let feed_um: u64 = if mm == 1 {
            10
        } else if mm == 2 {
            20
        } else if mm == 3 {
            25
        } else if mm == 4 || mm == 5 || mm == 6 {
            50
        } else if mm == 8 {
            64
        } else if mm == 10 {
            80
        } else if mm == 12 {
            100
        } else {
            return Err(EvaluationError::MissingFeedEntry { diameter_mm: mm });
        };
        Ok(Length::from_value_um(feed_um))
    }

    /// The worst-case tangential cutting force this tool can demand,
    /// following the empirical model `Ft = sigma * A * Zc * Ef * Tf` with
    /// the side-milling worst case throughout: the axial depth of cut is
    /// the full cutting-edge length, half the flutes (rounded up) are
    /// engaged, and the fixed engagement and wear factors apply.
    pub fn tangential_cutting_force(&self) -> (r: Result<Force, EvaluationError>)
        requires
            self@.wf(),
        ensures
            match r {
                Ok(f) => feed_defined(ceil_mm(self@.diameter_nm)) && f@ == tool_force_un(self@),
                Err(e) => !feed_defined(ceil_mm(self@.diameter_nm)) && e
                    == (EvaluationError::MissingFeedEntry {
                    diameter_mm: ceil_mm(self@.diameter_nm) as u64,
                }),
            },
    {
        let feed = match self.feed_per_tooth() {
            Ok(l) => l,
            Err(e) => {
                return Err(e);
            },
        };
        let edge_nm = self.length_cutting_edge.value_nm();
        let feed_value_nm = feed.value_nm();
        let z_c = (self.num_flutes + 1) / 2;
        proof {
            lemma_feed_nm_bounds(ceil_mm(self@.diameter_nm));
            lemma_mul_le(
                (SIGMA_ALUMINIUM_PA as int) * (edge_nm as int),
                483_000_000_000_000_000,
                feed_value_nm as int,
                100_000,
            );
            lemma_mul_le(
                (SIGMA_ALUMINIUM_PA as int) * (edge_nm as int) * (feed_value_nm as int),
                48_300_000_000_000_000_000_000,
                z_c as int,
                500,
            );
            lemma_tool_force_bounds(self@);
        }
        let n1: u128 = (SIGMA_ALUMINIUM_PA as u128) * (edge_nm as u128);
        let n2: u128 = n1 * (feed_value_nm as u128);
        let n3: u128 = n2 * (z_c as u128);
        let n4: u128 = n3 * (ENGAGEMENT_FACTOR_NUM as u128);
        let n5: u128 = n4 * (WEAR_FACTOR_NUM as u128);
        let den: u128 = (ENGAGEMENT_FACTOR_DEN as u128) * (WEAR_FACTOR_DEN as u128)
            * 1_000_000_000_000;
        let force_un: u128 = n5 / den;
        Ok(Force::from_value_un(force_un as u64))
    }
}

} // verus!
