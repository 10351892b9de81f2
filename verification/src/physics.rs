//! Unit-safe physical quantities.
//!
//! Every quantity is a distinct wrapper around a fixed-point integer in a
//! canonical fine unit, so that no bare scalar ever crosses a quantity
//! boundary and every conversion is an explicitly named operation with an
//! exact contract:
//!
//! - [`Length`]: nanometres (nm)
//! - [`Force`]: micronewtons (uN)
//! - [`Torque`]: piconewton-metres (pNm)
//! - [`Power`]: milliwatts (mW)
//! - [`RotationalSpeed`]: milli-revolutions per minute (mrpm)
//! - [`Speed`]: nanometres per minute (nm/min)
//!
//! Derivations that involve pi use the rational approximation
//! [`PI_NUM`] / [`PI_DEN`].

use vstd::prelude::*;
use vstd::arithmetic::div_mod::{
    lemma_div_is_ordered, lemma_div_multiples_vanish, lemma_fundamental_div_mod, lemma_mod_bound,
};
use crate::arith::lemma_mul_le;
use core::cmp::Ordering;

verus! {

/// Numerator of the rational approximation of pi.
pub const PI_NUM: u64 = 3_141_592_653_589_793;

/// Denominator of the rational approximation of pi: `PI_NUM / PI_DEN`
/// equals pi in its first fifteen decimal places.
pub const PI_DEN: u64 = 1_000_000_000_000_000;

/// Largest power, in milliwatts, that [`Power::to_torque`] accepts (5 MW).
/// The bound keeps the intermediate fixed-point products of every torque
/// derivation within 128 bits and every result within 64 bits.
pub const POWER_MW_MAX: u64 = 5_000_000_000;

/// Torque in piconewton-metres resulting from a force in micronewtons acting
/// at a radius in nanometres: `force * radius` is in units of 10^-15 Nm.
pub open spec fn torque_of_force_pnm(force_un: int, radius_nm: int) -> int {
    (force_un * radius_nm) / 1000
}

/// Force in micronewtons resulting from a torque in piconewton-metres acting
/// at a radius in nanometres (the inverse derivation of
/// [`torque_of_force_pnm`]).
pub open spec fn force_of_torque_un(torque_pnm: int, radius_nm: int) -> int {
    (torque_pnm * 1000) / radius_nm
}

/// Torque in piconewton-metres delivered by a power in milliwatts at a
/// rotational speed in milli-RPM: torque = power / angular speed, and the
/// angular speed in rad/s of `mrpm` is `mrpm * pi / 30_000_000`.
pub open spec fn torque_of_power_pnm(power_mw: int, mrpm: int) -> int {
    (power_mw * 30_000_000_000_000 * PI_DEN) / (PI_NUM * mrpm)
}

/// Rotational speed in milli-RPM at which a point at a radius in nanometres
/// travels with the given linear speed in nanometres per minute:
/// `rpm = speed / (2 * pi * radius)`.
pub open spec fn mrpm_of_speed(speed_nm_per_min: int, radius_nm: int) -> int {
    (speed_nm_per_min * 1000 * PI_DEN) / (2 * PI_NUM * radius_nm)
}

/// Angular speed in microradians per second of a rotational speed in
/// milli-RPM: `rad/s = rpm / 60 * 2 * pi`.
pub open spec fn urad_per_s_of_mrpm(mrpm: int) -> int {
    (mrpm * PI_NUM * 100) / (PI_DEN * 3)
}

/// `v` clamped into the inclusive band `[lo, hi]`.
pub open spec fn clamped(v: int, lo: int, hi: int) -> int {
    if v < lo {
        lo
    } else if v > hi {
        hi
    } else {
        v
    }
}

/// A length, held in nanometres.
#[derive(Debug, Clone, Copy, PartialEq, Eq, Structural)]
pub struct Length {
    nm: u64,
}

impl View for Length {
    type V = nat;

    /// The length in nanometres.
    closed spec fn view(&self) -> nat {
        self.nm as nat
    }
}

impl Length {
    /// Create an instance of `Length` from a value in metres.
    pub fn from_value_m(length_m: u64) -> (r: Length)
        requires
            length_m * 1_000_000_000 <= u64::MAX,
        ensures
            r@ == length_m * 1_000_000_000,
    {
        Length { nm: length_m * 1_000_000_000 }
    }

    /// Create an instance of `Length` from a value in millimetres.
    pub fn from_value_mm(length_mm: u64) -> (r: Length)
        requires
            length_mm * 1_000_000 <= u64::MAX,
        ensures
            r@ == length_mm * 1_000_000,
    {
        Length { nm: length_mm * 1_000_000 }
    }

    /// Create an instance of `Length` from a value in micrometres.
    pub fn from_value_um(length_um: u64) -> (r: Length)
        requires
            length_um * 1000 <= u64::MAX,
        ensures
            r@ == length_um * 1000,
    {
        Length { nm: length_um * 1000 }
    }

    /// Create an instance of `Length` from a value in nanometres, the
    /// canonical resolution.
    pub fn from_value_nm(length_nm: u64) -> (r: Length)
        ensures
            r@ == length_nm,
    {
        Length { nm: length_nm }
    }

    /// Return the value in whole metres, rounded toward zero.
    pub fn value_m(&self) -> (r: u64)
        ensures
            r == self@ / 1_000_000_000,
    {
        self.nm / 1_000_000_000
    }

    /// Return the value in whole millimetres, rounded toward zero.
    pub fn value_mm(&self) -> (r: u64)
        ensures
            r == self@ / 1_000_000,
    {
        self.nm / 1_000_000
    }

    /// Return the value in whole micrometres, rounded toward zero.
    pub fn value_um(&self) -> (r: u64)
        ensures
            r == self@ / 1000,
    {
        self.nm / 1000
    }

    /// Return the exact value in nanometres.
    pub fn value_nm(&self) -> (r: u64)
        ensures
            r == self@,
    {
        self.nm
    }

    /// Add two lengths.
    pub fn add(self, rhs: Length) -> (r: Length)
        requires
            self@ + rhs@ <= u64::MAX,
        ensures
            r@ == self@ + rhs@,
    {
        Length { nm: self.nm + rhs.nm }
    }

    /// Divide the length by a positive scalar, rounding toward zero.
    pub fn div(self, rhs: u64) -> (r: Length)
        requires
            rhs > 0,
        ensures
            r@ == self@ / (rhs as nat),
    {
        Length { nm: self.nm / rhs }
    }
}

/// A diameter: a [`Length`] tagged as the diameter of a circle.
#[derive(Debug, Clone, Copy, PartialEq, Eq, Structural)]
pub struct Diameter {
    length: Length,
}

impl View for Diameter {
    type V = nat;

    /// The diameter in nanometres.
    closed spec fn view(&self) -> nat {
        self.length@
    }
}

impl Diameter {
    /// Create an instance of `Diameter` from a `Length`.
    pub fn from_length(length: Length) -> (r: Diameter)
        ensures
            r@ == length@,
    {
        Diameter { length }
    }

    /// Convert this diameter into a `Length`.
    pub fn to_length(&self) -> (r: Length)
        ensures
            r@ == self@,
    {
        self.length
    }

    /// Convert this diameter into a `Radius`: half the diameter, rounded
    /// down to the nanometre.
    pub fn to_radius(&self) -> (r: Radius)
        ensures
            r@ == self@ / 2,
    {
        Radius { length: self.length.div(2) }
    }
}

/// A radius: a [`Length`] tagged as the radius of a circle.
#[derive(Debug, Clone, Copy, PartialEq, Eq, Structural)]
pub struct Radius {
    length: Length,
}

impl View for Radius {
    type V = nat;

    /// The radius in nanometres.
    closed spec fn view(&self) -> nat {
        self.length@
    }
}

impl Radius {
    /// Create an instance of `Radius` from a `Length`.
    pub fn from_length(length: Length) -> (r: Radius)
        ensures
            r@ == length@,
    {
        Radius { length }
    }

    /// Convert this radius into a `Length`.
    pub fn to_length(&self) -> (r: Length)
        ensures
            r@ == self@,
    {
        self.length
    }

    /// Derive the radius of a circle with the given diameter.
    pub fn from(diameter: Diameter) -> (r: Radius)
        ensures
            r@ == diameter@ / 2,
    {
        diameter.to_radius()
    }
}

/// Halving a positive diameter and reading the resulting radius back as a
/// length recovers exactly half the diameter at nanometre resolution: the
/// round trip is exact for even diameters and loses at most one nanometre
/// otherwise.
pub proof fn lemma_diameter_to_radius_exact(d: Diameter)
    ensures
        2 * (d@ / 2) <= d@ < 2 * (d@ / 2) + 2,
        d@ % 2 == 0 ==> 2 * (d@ / 2) == d@,
{
    lemma_fundamental_div_mod(d@ as int, 2);
    lemma_mod_bound(d@ as int, 2);
}

/// A force, held in micronewtons.
#[derive(Debug, Clone, Copy, PartialEq, Eq, Structural)]
pub struct Force {
    un: u64,
}

impl View for Force {
    type V = nat;

    /// The force in micronewtons.
    closed spec fn view(&self) -> nat {
        self.un as nat
    }
}

impl Force {
    /// Create an instance of `Force` from a value in newtons.
    pub fn from_value_n(force_n: u64) -> (r: Force)
        requires
            force_n * 1_000_000 <= u64::MAX,
        ensures
            r@ == force_n * 1_000_000,
    {
        Force { un: force_n * 1_000_000 }
    }

    /// Create an instance of `Force` from a value in micronewtons, the
    /// canonical resolution.
    pub fn from_value_un(force_un: u64) -> (r: Force)
        ensures
            r@ == force_un,
    {
        Force { un: force_un }
    }

    /// Return the value in whole newtons, rounded toward zero.
    pub fn value_n(&self) -> (r: u64)
        ensures
            r == self@ / 1_000_000,
    {
        self.un / 1_000_000
    }

    /// Return the exact value in micronewtons.
    pub fn value_un(&self) -> (r: u64)
        ensures
            r == self@,
    {
        self.un
    }

    /// Compute the torque resulting from this force at the given radius.
    pub fn to_torque(&self, radius: Radius) -> (r: Torque)
        requires
            torque_of_force_pnm(self@ as int, radius@ as int) <= u64::MAX,
        ensures
            r@ == torque_of_force_pnm(self@ as int, radius@ as int),
    {
        proof {
            lemma_mul_le(self@ as int, u64::MAX as int, radius@ as int, u64::MAX as int);
        }
        let wide: u128 = (self.un as u128) * (radius.length.nm as u128);
        let t: u128 = wide / 1000;
        Torque { pnm: t as u64 }
    }
}

/// A torque, held in piconewton-metres.
#[derive(Debug, Clone, Copy)]
pub struct Torque {
    pnm: u64,
}

impl View for Torque {
    type V = nat;

    /// The torque in piconewton-metres.
    closed spec fn view(&self) -> nat {
        self.pnm as nat
    }
}

impl Torque {
    /// Create an instance of `Torque` from a value in newton-metres.
    pub fn from_value_nm(torque_nm: u64) -> (r: Torque)
        requires
            torque_nm * 1_000_000_000_000 <= u64::MAX,
        ensures
            r@ == torque_nm * 1_000_000_000_000,
    {
        Torque { pnm: torque_nm * 1_000_000_000_000 }
    }

    /// Create an instance of `Torque` from a value in piconewton-metres, the
    /// canonical resolution.
    pub fn from_value_pnm(torque_pnm: u64) -> (r: Torque)
        ensures
            r@ == torque_pnm,
    {
        Torque { pnm: torque_pnm }
    }

    /// Return the value in whole newton-metres, rounded toward zero.
    pub fn value_nm(&self) -> (r: u64)
        ensures
            r == self@ / 1_000_000_000_000,
    {
        self.pnm / 1_000_000_000_000
    }

    /// Return the exact value in piconewton-metres.
    pub fn value_pnm(&self) -> (r: u64)
        ensures
            r == self@,
    {
        self.pnm
    }

    /// Compute the force resulting from this torque at the given radius.
    /// The radius must not be degenerate (zero).
    pub fn to_force(&self, radius: Radius) -> (r: Force)
        requires
            radius@ >= 1,
            force_of_torque_un(self@ as int, radius@ as int) <= u64::MAX,
        ensures
            r@ == force_of_torque_un(self@ as int, radius@ as int),
    {
        let wide: u128 = (self.pnm as u128) * 1000;
        let f: u128 = wide / (radius.length.nm as u128);
        Force { un: f as u64 }
    }
}

impl PartialEq for Torque {
    /// Torques compare by their magnitude.
    fn eq(&self, other: &Self) -> bool {
        self.pnm == other.pnm
    }
}

impl vstd::std_specs::cmp::PartialEqSpecImpl for Torque {
    open spec fn obeys_eq_spec() -> bool {
        true
    }

    open spec fn eq_spec(&self, other: &Torque) -> bool {
        self@ == other@
    }
}

impl PartialOrd for Torque {
    /// Torques are totally ordered by their magnitude, so that a required
    /// torque can be compared against a deliverable one.
    fn partial_cmp(&self, other: &Self) -> Option<Ordering> {
        if self.pnm < other.pnm {
            Some(Ordering::Less)
        } else if self.pnm == other.pnm {
            Some(Ordering::Equal)
        } else {
            Some(Ordering::Greater)
        }
    }
}

impl vstd::std_specs::cmp::PartialOrdSpecImpl for Torque {
    open spec fn obeys_partial_cmp_spec() -> bool {
        true
    }

    open spec fn partial_cmp_spec(&self, other: &Torque) -> Option<Ordering> {
        if self@ < other@ {
            Some(Ordering::Less)
        } else if self@ == other@ {
            Some(Ordering::Equal)
        } else {
            Some(Ordering::Greater)
        }
    }
}

/// A power, held in milliwatts.
#[derive(Debug, Clone, Copy, PartialEq, Eq, Structural)]
pub struct Power {
    mw: u64,
}

impl View for Power {
    type V = nat;

    /// The power in milliwatts.
    closed spec fn view(&self) -> nat {
        self.mw as nat
    }
}

impl Power {
    /// Create an instance of `Power` from a value in watts.
    pub fn from_value_w(power_w: u64) -> (r: Power)
        requires
            power_w * 1000 <= u64::MAX,
        ensures
            r@ == power_w * 1000,
    {
        Power { mw: power_w * 1000 }
    }

    /// Create an instance of `Power` from a value in kilowatts.
    pub fn from_value_kw(power_kw: u64) -> (r: Power)
        requires
            power_kw * 1_000_000 <= u64::MAX,
        ensures
            r@ == power_kw * 1_000_000,
    {
        Power { mw: power_kw * 1_000_000 }
    }

    /// Create an instance of `Power` from a value in milliwatts, the
    /// canonical resolution.
    pub fn from_value_mw(power_mw: u64) -> (r: Power)
        ensures
            r@ == power_mw,
    {
        Power { mw: power_mw }
    }

    /// Return the value in whole watts, rounded toward zero.
    pub fn value_w(&self) -> (r: u64)
        ensures
            r == self@ / 1000,
    {
        self.mw / 1000
    }

    /// Return the exact value in milliwatts.
    pub fn value_mw(&self) -> (r: u64)
        ensures
            r == self@,
    {
        self.mw
    }

    /// Compute the torque this power delivers at the given rotational speed:
    /// torque = power / angular speed. The speed must not be zero.
    pub fn to_torque(&self, rotational_speed: RotationalSpeed) -> (r: Torque)
        requires
            self@ <= POWER_MW_MAX,
            rotational_speed@ >= 1,
            torque_of_power_pnm(self@ as int, rotational_speed@ as int) <= u64::MAX,
        ensures
            r@ == torque_of_power_pnm(self@ as int, rotational_speed@ as int),
    {
        let num: u128 = (self.mw as u128) * 30_000_000_000_000 * (PI_DEN as u128);
        let den: u128 = (PI_NUM as u128) * (rotational_speed.mrpm as u128);
        let t: u128 = num / den;
        Torque { pnm: t as u64 }
    }
}

/// A rotational speed, held in milli-revolutions per minute.
#[derive(Debug, Clone, Copy, PartialEq, Eq, Structural)]
pub struct RotationalSpeed {
    mrpm: u64,
}

impl View for RotationalSpeed {
    type V = nat;

    /// The rotational speed in milli-RPM.
    closed spec fn view(&self) -> nat {
        self.mrpm as nat
    }
}

impl RotationalSpeed {
    /// Create an instance of `RotationalSpeed` from a value in revolutions
    /// per minute.
    pub fn from_value_rpm(rotational_speed_rpm: u64) -> (r: RotationalSpeed)
        requires
            rotational_speed_rpm * 1000 <= u64::MAX,
        ensures
            r@ == rotational_speed_rpm * 1000,
    {
        RotationalSpeed { mrpm: rotational_speed_rpm * 1000 }
    }

    /// Create an instance of `RotationalSpeed` from a value in milli-RPM,
    /// the canonical resolution.
    pub fn from_value_mrpm(rotational_speed_mrpm: u64) -> (r: RotationalSpeed)
        ensures
            r@ == rotational_speed_mrpm,
    {
        RotationalSpeed { mrpm: rotational_speed_mrpm }
    }

    /// Return the value in whole revolutions per minute, rounded toward
    /// zero.
    pub fn value_rpm(&self) -> (r: u64)
        ensures
            r == self@ / 1000,
    {
        self.mrpm / 1000
    }

    /// Return the exact value in milli-RPM.
    pub fn value_mrpm(&self) -> (r: u64)
        ensures
            r == self@,
    {
        self.mrpm
    }

    /// Return the angular speed in microradians per second:
    /// `rad/s = rpm / 60 * 2 * pi`.
    pub fn value_urad_per_s(&self) -> (r: u64)
        requires
            urad_per_s_of_mrpm(self@ as int) <= u64::MAX,
        ensures
            r == urad_per_s_of_mrpm(self@ as int),
    {
        let num: u128 = (self.mrpm as u128) * (PI_NUM as u128) * 100;
        let den: u128 = (PI_DEN as u128) * 3;
        let w: u128 = num / den;
        w as u64
    }

    /// Clamp the rotational speed into the inclusive band `[min, max]`.
    pub fn clamp(&self, min: RotationalSpeed, max: RotationalSpeed) -> (r: RotationalSpeed)
        requires
            min@ <= max@,
        ensures
            r@ == clamped(self@ as int, min@ as int, max@ as int),
    {
        if self.mrpm < min.mrpm {
            min
        } else if self.mrpm > max.mrpm {
            max
        } else {
            *self
        }
    }
}

/// A linear speed, held in nanometres per minute.
#[derive(Debug, Clone, Copy, PartialEq, Eq, Structural)]
pub struct Speed {
    nm_per_min: u64,
}

impl View for Speed {
    type V = nat;

    /// The speed in nanometres per minute.
    closed spec fn view(&self) -> nat {
        self.nm_per_min as nat
    }
}

impl Speed {
    /// Create an instance of `Speed` from a value in metres per second.
    pub fn from_value_m_per_s(speed_m_per_s: u64) -> (r: Speed)
        requires
            speed_m_per_s * 60_000_000_000 <= u64::MAX,
        ensures
            r@ == speed_m_per_s * 60_000_000_000,
    {
        Speed { nm_per_min: speed_m_per_s * 60_000_000_000 }
    }

    /// Create an instance of `Speed` from a value in metres per minute.
    pub fn from_value_m_per_min(speed_m_per_min: u64) -> (r: Speed)
        requires
            speed_m_per_min * 1_000_000_000 <= u64::MAX,
        ensures
            r@ == speed_m_per_min * 1_000_000_000,
    {
        Speed { nm_per_min: speed_m_per_min * 1_000_000_000 }
    }

    /// Create an instance of `Speed` from a value in nanometres per minute,
    /// the canonical resolution.
    pub fn from_value_nm_per_min(speed_nm_per_min: u64) -> (r: Speed)
        ensures
            r@ == speed_nm_per_min,
    {
        Speed { nm_per_min: speed_nm_per_min }
    }

    /// Return the value in whole metres per minute, rounded toward zero.
    pub fn value_m_per_min(&self) -> (r: u64)
        ensures
            r == self@ / 1_000_000_000,
    {
        self.nm_per_min / 1_000_000_000
    }

    /// Return the exact value in nanometres per minute.
    pub fn value_nm_per_min(&self) -> (r: u64)
        ensures
            r == self@,
    {
        self.nm_per_min
    }

    /// Compute the rotational speed at which a point at the given radius
    /// travels with this linear speed: `rpm = speed / (2 * pi * radius)`.
    /// The radius must not be degenerate (zero).
    pub fn to_rotational_speed(&self, radius: Radius) -> (r: RotationalSpeed)
        requires
            radius@ >= 1,
            mrpm_of_speed(self@ as int, radius@ as int) <= u64::MAX,
        ensures
            r@ == mrpm_of_speed(self@ as int, radius@ as int),
    {
        let num: u128 = (self.nm_per_min as u128) * 1000 * (PI_DEN as u128);
        let den: u128 = 2 * (PI_NUM as u128) * (radius.length.nm as u128);
        let m: u128 = num / den;
        RotationalSpeed { mrpm: m as u64 }
    }
}

/// Converting a force to the torque it exerts at a positive radius and back
/// recovers the original force up to the fixed-point granularity: the
/// recovered force never exceeds the original and falls short by at most
/// `1000 / radius + 1` micronewtons (so for radii of a micrometre or more,
/// by at most 2 uN).
pub proof fn lemma_force_torque_round_trip(force_un: int, radius_nm: int)
    requires
        0 <= force_un,
        1 <= radius_nm,
    ensures
        force_of_torque_un(torque_of_force_pnm(force_un, radius_nm), radius_nm) <= force_un,
        force_un - (1000int / radius_nm + 1) <= force_of_torque_un(
            torque_of_force_pnm(force_un, radius_nm),
            radius_nm,
        ),
{
    let fr = force_un * radius_nm;
    assert(0 <= fr) by (nonlinear_arith)
        requires
            fr == force_un * radius_nm,
            0 <= force_un,
            1 <= radius_nm,
    ;
    let t = fr / 1000;
    lemma_fundamental_div_mod(fr, 1000);
    lemma_mod_bound(fr, 1000);
    let s = fr % 1000;
    assert(t * 1000 == fr - s);
    // Upper bound: t * 1000 <= fr, so dividing both by the radius keeps the
    // order, and fr / radius is exactly the original force.
    lemma_div_is_ordered(t * 1000, fr, radius_nm);
    lemma_div_multiples_vanish(force_un, radius_nm);
    assert(fr == radius_nm * force_un) by (nonlinear_arith)
        requires
            fr == force_un * radius_nm,
    ;
    assert(fr / radius_nm == force_un);
    // Lower bound: q = 1000 / radius + 1 over-approximates the worst loss.
    let q = 1000int / radius_nm + 1;
    lemma_fundamental_div_mod(1000, radius_nm);
    lemma_mod_bound(1000, radius_nm);
    assert(q * radius_nm >= 1001) by (nonlinear_arith)
        requires
            q == 1000int / radius_nm + 1,
            1000 == radius_nm * (1000int / radius_nm) + 1000int % radius_nm,
            0 <= 1000int % radius_nm < radius_nm,
            1 <= radius_nm,
    ;
    assert((force_un - q) * radius_nm <= t * 1000) by (nonlinear_arith)
        requires
            fr == force_un * radius_nm,
            t * 1000 == fr - s,
            0 <= s < 1000,
            q * radius_nm >= 1001,
            1 <= radius_nm,
    ;
    lemma_div_is_ordered((force_un - q) * radius_nm, t * 1000, radius_nm);
    lemma_div_multiples_vanish(force_un - q, radius_nm);
    assert((force_un - q) * radius_nm == radius_nm * (force_un - q)) by (nonlinear_arith);
}

/// Two lengths with the same view in nanometres are the same value.
pub proof fn lemma_length_view_injective(a: Length, b: Length)
    ensures
        a@ == b@ ==> a == b,
{
}

/// Two diameters with the same view in nanometres are the same value.
pub proof fn lemma_diameter_view_injective(a: Diameter, b: Diameter)
    ensures
        a@ == b@ ==> a == b,
{
}

/// Two forces with the same view in micronewtons are the same value.
pub proof fn lemma_force_view_injective(a: Force, b: Force)
    ensures
        a@ == b@ ==> a == b,
{
}

/// Two torques with the same view in piconewton-metres are the same value.
pub proof fn lemma_torque_view_injective(a: Torque, b: Torque)
    ensures
        a@ == b@ ==> a == b,
{
}

} // verus!
