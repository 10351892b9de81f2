use cnc_calc::machine::{max_travel, mgn15_height_total, table_thickness};
use cnc_calc::physics::{Power, RotationalSpeed};
use cnc_calc::spindle::Spindle;

fn spindle_1500w() -> Spindle {
    Spindle::new(Power::from_value_w(1500))
}

#[test]
fn torque_at_low_end_of_band() {
    // 1500 W at 5000 RPM (angular speed 523.6 rad/s) yield about 2.8648 Nm.
    let t = spindle_1500w().torque(RotationalSpeed::from_value_rpm(5000));
    assert_eq!(t.value_pnm(), 2_864_788_975_654);
    let float_nm = t.value_pnm() as f64 / 1e12;
    assert!((float_nm - 2.8648).abs() < 0.0001);
}

#[test]
fn torque_at_high_end_of_band() {
    // 1500 W at 24000 RPM yield about 0.5968 Nm.
    let t = spindle_1500w().torque(RotationalSpeed::from_value_rpm(24000));
    assert_eq!(t.value_pnm(), 596_831_036_594);
    let float_nm = t.value_pnm() as f64 / 1e12;
    assert!((float_nm - 0.5968).abs() < 0.0001);
}

#[test]
fn torque_clamps_below_band() {
    let s = spindle_1500w();
    let below = s.torque(RotationalSpeed::from_value_rpm(4000));
    let low = s.torque(RotationalSpeed::from_value_rpm(5000));
    assert_eq!(below.value_pnm(), low.value_pnm());
    assert!(below == low);
}

#[test]
fn torque_clamps_above_band() {
    let s = spindle_1500w();
    let above = s.torque(RotationalSpeed::from_value_rpm(30000));
    let high = s.torque(RotationalSpeed::from_value_rpm(24000));
    assert_eq!(above.value_pnm(), high.value_pnm());
    assert!(above == high);
}

#[test]
fn torque_strictly_decreases_within_band() {
    let s = spindle_1500w();
    let speeds = [5000_u64, 5001, 8000, 12000, 16000, 23999, 24000];
    for pair in speeds.windows(2) {
        let slower = s.torque(RotationalSpeed::from_value_rpm(pair[0]));
        let faster = s.torque(RotationalSpeed::from_value_rpm(pair[1]));
        assert!(slower > faster);
    }
}

#[test]
fn torque_strictly_decreases_per_milli_rpm() {
    let s = spindle_1500w();
    let a = s.torque(RotationalSpeed::from_value_mrpm(23_999_999));
    let b = s.torque(RotationalSpeed::from_value_mrpm(24_000_000));
    assert!(a > b);
}

#[test]
fn machine_dimensions() {
    assert_eq!(table_thickness().value_mm(), 10);
    assert_eq!(max_travel().value_mm(), 100);
    assert_eq!(mgn15_height_total().value_mm(), 16);
}
