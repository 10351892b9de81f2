use cnc_calc::physics::{Diameter, Force, Length, Power, Radius, RotationalSpeed, Speed, Torque};

#[test]
fn length_constructors_use_named_units() {
    assert_eq!(Length::from_value_m(1).value_nm(), 1_000_000_000);
    assert_eq!(Length::from_value_mm(38).value_nm(), 38_000_000);
    assert_eq!(Length::from_value_um(400).value_nm(), 400_000);
    assert_eq!(Length::from_value_nm(7).value_nm(), 7);
}

#[test]
fn length_accessors_round_toward_zero() {
    let l = Length::from_value_nm(1_999_999_999);
    assert_eq!(l.value_m(), 1);
    assert_eq!(l.value_mm(), 1999);
    assert_eq!(l.value_um(), 1_999_999);
}

#[test]
fn length_add_and_div() {
    let a = Length::from_value_mm(3);
    let b = Length::from_value_mm(4);
    assert_eq!(a.add(b).value_nm(), 7_000_000);
    assert_eq!(a.div(2).value_nm(), 1_500_000);
    assert_eq!(Length::from_value_nm(7).div(2).value_nm(), 3);
}

#[test]
fn diameter_to_radius_halves_exactly() {
    let d = Diameter::from_length(Length::from_value_um(400));
    let r = d.to_radius();
    assert_eq!(r.to_length().value_nm(), 200_000);
    assert_eq!(d.to_length().value_nm(), 400_000);
    // Round trip for an even diameter is exact: twice the radius is the
    // diameter again.
    assert_eq!(2 * r.to_length().value_nm(), d.to_length().value_nm());
}

#[test]
fn radius_from_diameter_matches_to_radius() {
    let d = Diameter::from_length(Length::from_value_mm(12));
    assert_eq!(Radius::from(d).to_length().value_nm(), 6_000_000);
    let l = Length::from_value_mm(5);
    assert_eq!(Radius::from_length(l).to_length().value_nm(), 5_000_000);
}

#[test]
fn odd_diameter_loses_at_most_one_nanometre() {
    let d = Diameter::from_length(Length::from_value_nm(7));
    assert_eq!(d.to_radius().to_length().value_nm(), 3);
}

#[test]
fn force_constructors_and_accessors() {
    assert_eq!(Force::from_value_n(3).value_un(), 3_000_000);
    assert_eq!(Force::from_value_un(3_864_000).value_n(), 3);
    assert_eq!(Force::from_value_un(42).value_un(), 42);
}

#[test]
fn force_to_torque_scenario() {
    // 3.864 N at a radius of 0.2 mm demand 0.0007728 Nm.
    let f = Force::from_value_un(3_864_000);
    let r = Diameter::from_length(Length::from_value_um(400)).to_radius();
    let t = f.to_torque(r);
    assert_eq!(t.value_pnm(), 772_800_000);
}

#[test]
fn torque_to_force_scenario() {
    // The spindle ceiling of about 0.5968 Nm at a radius of 2.5 mm caps the
    // force at about 238.73 N.
    let t = Torque::from_value_pnm(596_831_036_594);
    let r = Diameter::from_length(Length::from_value_mm(5)).to_radius();
    let f = t.to_force(r);
    assert_eq!(f.value_un(), 238_732_414);
}

#[test]
fn force_torque_round_trip_is_exact_at_micrometre_radii() {
    let f = Force::from_value_un(1_234_567);
    let r = Diameter::from_length(Length::from_value_um(400)).to_radius();
    let back = f.to_torque(r).to_force(r);
    assert_eq!(back.value_un(), 1_234_567);
}

#[test]
fn force_torque_round_trip_loses_little_at_tiny_radii() {
    // At a radius of 3 nm the round trip may fall short, but never by more
    // than 1000 / radius + 1 micronewtons, and never recovers more.
    let f = Force::from_value_un(1_000_001);
    let r = Radius::from_length(Length::from_value_nm(3));
    let back = f.to_torque(r).to_force(r);
    assert!(back.value_un() <= 1_000_001);
    assert!(1_000_001 - back.value_un() <= 1000 / 3 + 1);
    assert_eq!(back.value_un(), 1_000_000);
}

#[test]
fn torque_compares_by_magnitude() {
    let a = Torque::from_value_pnm(10);
    let b = Torque::from_value_pnm(20);
    assert!(a < b);
    assert!(b > a);
    assert!(a == Torque::from_value_pnm(10));
    assert!(a != b);
}

#[test]
fn torque_value_nm_rounds_toward_zero() {
    assert_eq!(Torque::from_value_pnm(2_864_788_975_654).value_nm(), 2);
    assert_eq!(Torque::from_value_nm(3).value_pnm(), 3_000_000_000_000);
}

#[test]
fn power_constructors_and_accessors() {
    assert_eq!(Power::from_value_w(1500).value_mw(), 1_500_000);
    assert_eq!(Power::from_value_kw(2).value_mw(), 2_000_000);
    assert_eq!(Power::from_value_mw(1234).value_w(), 1);
}

#[test]
fn power_to_torque_scenario() {
    // 1500 W at 5000 RPM (523.6 rad/s) yield about 2.8648 Nm.
    let p = Power::from_value_w(1500);
    let rpm = RotationalSpeed::from_value_rpm(5000);
    let t = p.to_torque(rpm);
    assert_eq!(t.value_pnm(), 2_864_788_975_654);
    assert_eq!(t.value_nm(), 2);
    let nm_thousandths = t.value_pnm() / 1_000_000_000;
    assert_eq!(nm_thousandths, 2864); // 2.864 Nm at millinewton-metre precision
}

#[test]
fn rotational_speed_units_and_angular_speed() {
    let r = RotationalSpeed::from_value_rpm(5000);
    assert_eq!(r.value_mrpm(), 5_000_000);
    assert_eq!(r.value_rpm(), 5000);
    // 5000 RPM is 523.598... rad/s.
    assert_eq!(r.value_urad_per_s(), 523_598_775);
}

#[test]
fn rotational_speed_clamp() {
    let lo = RotationalSpeed::from_value_rpm(5000);
    let hi = RotationalSpeed::from_value_rpm(24000);
    assert_eq!(RotationalSpeed::from_value_rpm(4000).clamp(lo, hi).value_rpm(), 5000);
    assert_eq!(RotationalSpeed::from_value_rpm(30000).clamp(lo, hi).value_rpm(), 24000);
    assert_eq!(RotationalSpeed::from_value_rpm(9000).clamp(lo, hi).value_rpm(), 9000);
    assert_eq!(RotationalSpeed::from_value_rpm(5000).clamp(lo, hi).value_rpm(), 5000);
    assert_eq!(RotationalSpeed::from_value_rpm(24000).clamp(lo, hi).value_rpm(), 24000);
}

#[test]
fn speed_units() {
    assert_eq!(Speed::from_value_m_per_min(500).value_nm_per_min(), 500_000_000_000);
    assert_eq!(Speed::from_value_m_per_s(2).value_m_per_min(), 120);
    assert_eq!(Speed::from_value_nm_per_min(999_999_999).value_m_per_min(), 0);
}

#[test]
fn speed_to_rotational_speed_scenario() {
    // 500 m/min at a 0.4 mm diameter asks for about 397887 RPM.
    let v = Speed::from_value_m_per_min(500);
    let r = Diameter::from_length(Length::from_value_um(400)).to_radius();
    let rpm = v.to_rotational_speed(r);
    assert_eq!(rpm.value_mrpm(), 397_887_357);
    assert_eq!(rpm.value_rpm(), 397_887);
}

#[test]
fn fixed_point_speed_matches_float_reference() {
    // The fixed-point milli-RPM value agrees with the floating-point
    // formula rpm = v / (2 * pi * r) to within one milli-RPM.
    let v = Speed::from_value_m_per_min(500);
    let r = Diameter::from_length(Length::from_value_um(400)).to_radius();
    let rpm = v.to_rotational_speed(r);
    let expected = 500.0_f64 * 1000.0 / (std::f64::consts::PI * 0.4);
    let got = rpm.value_mrpm() as f64 / 1000.0;
    assert!((expected - got).abs() < 0.001);
}
