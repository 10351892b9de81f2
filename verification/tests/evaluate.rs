use cnc_calc::evaluate::{
    evaluate, evaluate_catalog, evaluate_tool, EvaluationError, TangentialCuttingForce,
};
use cnc_calc::physics::{Diameter, Force, Length, Power};
use cnc_calc::spindle::Spindle;
use cnc_calc::tools::Tool;

fn spindle_1500w() -> Spindle {
    Spindle::new(Power::from_value_w(1500))
}

fn tool(d_um: u64, edge_um: u64, total_um: u64, flutes: u64) -> Tool {
    Tool {
        diameter: Diameter::from_length(Length::from_value_um(d_um)),
        length_cutting_edge: Length::from_value_um(edge_um),
        length_total: Length::from_value_um(total_um),
        num_flutes: flutes,
    }
}

#[test]
fn governing_force_compares_by_magnitude_only() {
    let a = TangentialCuttingForce::PerToolRequirements(Force::from_value_un(500));
    let b = TangentialCuttingForce::PerMaxSpindleTorque(Force::from_value_un(500));
    let c = TangentialCuttingForce::PerToolRequirements(Force::from_value_un(700));
    assert!(a == b);
    assert!(a < c);
    assert!(c > b);
    assert_eq!(a.value().value_un(), 500);
    assert_eq!(c.value().value_un(), 700);
}

#[test]
fn small_tool_is_not_spindle_limited() {
    // The 0.4 mm tool demands only 3.864 N, far below what the spindle can
    // deliver at the clamped 24000 RPM.
    let ev = evaluate_tool(&spindle_1500w(), &tool(400, 2000, 38000, 2)).unwrap();
    match ev.force {
        TangentialCuttingForce::PerToolRequirements(f) => {
            assert_eq!(f.value_un(), 3_864_000);
        },
        TangentialCuttingForce::PerMaxSpindleTorque(_) => panic!("expected the tool's own demand"),
    }
    assert_eq!(ev.tool_torque.value_pnm(), 772_800_000);
    assert_eq!(ev.spindle_torque.value_pnm(), 596_831_036_594);
}

#[test]
fn large_tool_is_spindle_limited() {
    // The 10 mm single-flute tool would demand about 2.009 Nm, far beyond
    // the 0.9 Nm the spindle delivers at its desired 15915 RPM; its force
    // is capped at the spindle's ceiling.
    let ev = evaluate_tool(&spindle_1500w(), &tool(10000, 26000, 110000, 1)).unwrap();
    assert_eq!(ev.tool_torque.value_pnm(), 2_009_280_000_000);
    assert_eq!(ev.spindle_torque.value_pnm(), 900_000_017_484);
    match ev.force {
        TangentialCuttingForce::PerMaxSpindleTorque(f) => {
            assert_eq!(f.value_un(), 180_000_003);
        },
        TangentialCuttingForce::PerToolRequirements(_) => panic!("expected a capped force"),
    }
}

#[test]
fn degenerate_diameter_is_rejected_before_lookup() {
    let ev = evaluate_tool(&spindle_1500w(), &tool(0, 2000, 38000, 2));
    assert_eq!(ev.unwrap_err(), EvaluationError::DegenerateGeometry { diameter_nm: 0 });
    // A one-nanometre diameter yields a zero radius at this resolution.
    let t = Tool {
        diameter: Diameter::from_length(Length::from_value_nm(1)),
        length_cutting_edge: Length::from_value_um(2000),
        length_total: Length::from_value_um(38000),
        num_flutes: 2,
    };
    let ev = evaluate_tool(&spindle_1500w(), &t);
    assert_eq!(ev.unwrap_err(), EvaluationError::DegenerateGeometry { diameter_nm: 1 });
}

#[test]
fn feed_gap_is_reported_with_the_missing_key() {
    let ev = evaluate_tool(&spindle_1500w(), &tool(11000, 5000, 40000, 2));
    assert_eq!(ev.unwrap_err(), EvaluationError::MissingFeedEntry { diameter_mm: 11 });
}

#[test]
fn catalog_evaluation_reports_the_first_failure() {
    let tools = vec![
        tool(400, 2000, 38000, 2),
        tool(7000, 5000, 40000, 2),
        tool(0, 2000, 38000, 2),
    ];
    let r = evaluate_catalog(&spindle_1500w(), &tools);
    assert_eq!(r.unwrap_err(), EvaluationError::MissingFeedEntry { diameter_mm: 7 });
}

#[test]
fn full_evaluation_selects_the_governing_tool() {
    // Across the full 24-tool catalog the worst case is the 5 mm two-flute
    // tool with a 30 mm cutting edge: its demand of about 0.7245 Nm exceeds
    // the spindle's 0.5968 Nm ceiling at the clamped 24000 RPM, capping its
    // force at about 238.73 N, the catalog's maximum.
    let ev = evaluate().unwrap();
    assert_eq!(ev.tool.diameter.to_length().value_nm(), 5_000_000);
    assert_eq!(ev.tool.length_cutting_edge.value_nm(), 30_000_000);
    assert_eq!(ev.tool.length_total.value_nm(), 75_000_000);
    assert_eq!(ev.tool.num_flutes, 2);
    assert_eq!(ev.tool_torque.value_pnm(), 724_500_000_000);
    assert_eq!(ev.spindle_torque.value_pnm(), 596_831_036_594);
    match ev.force {
        TangentialCuttingForce::PerMaxSpindleTorque(f) => {
            assert_eq!(f.value_un(), 238_732_414);
            assert_eq!(f.value_n(), 238);
        },
        TangentialCuttingForce::PerToolRequirements(_) => panic!("expected a capped force"),
    }
}

#[test]
fn full_evaluation_beats_the_smallest_tool() {
    // The smallest tool's leverage disadvantage does not make it the worst
    // case: its own demand is tiny next to the capped forces of the large
    // tools.
    let smallest = evaluate_tool(&spindle_1500w(), &tool(400, 2000, 38000, 2)).unwrap();
    let winner = evaluate().unwrap();
    assert!(winner.force > smallest.force);
}

#[test]
fn full_evaluation_is_deterministic() {
    let first = evaluate().unwrap();
    let second = evaluate().unwrap();
    assert!(first == second);
    assert_eq!(first.tool, second.tool);
    assert_eq!(first.tool_torque.value_pnm(), second.tool_torque.value_pnm());
    assert_eq!(first.spindle_torque.value_pnm(), second.spindle_torque.value_pnm());
    assert_eq!(first.force.value().value_un(), second.force.value().value_un());
}

#[test]
fn catalog_evaluation_keeps_the_earliest_maximum() {
    // Two tools with identical geometry produce identical forces; the fold
    // under strict greater-than keeps the earlier one.
    let tools = vec![
        tool(6000, 26000, 68000, 1),
        tool(6000, 26000, 68000, 1),
        tool(400, 2000, 38000, 2),
    ];
    let ev = evaluate_catalog(&spindle_1500w(), &tools).unwrap();
    assert_eq!(ev.tool.length_total.value_nm(), 68_000_000);
    // The winner's force equals the first tool's evaluation, and the third
    // tool is strictly weaker.
    let first = evaluate_tool(&spindle_1500w(), &tools[0]).unwrap();
    assert!(ev.force == first.force);
}
