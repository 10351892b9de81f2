//! Spindle model: rated power, and the torque the spindle can deliver at a
//! (clamped) rotational speed.

use vstd::prelude::*;
use vstd::arithmetic::div_mod::lemma_div_pos_is_pos;
use crate::arith::{lemma_div_bound, lemma_div_strictly_ordered_by_denominator, lemma_mul_le};
use crate::physics::{
    clamped, torque_of_power_pnm, Power, RotationalSpeed, Torque, PI_DEN, PI_NUM, POWER_MW_MAX,
};

verus! {

/// Lowest rotational speed of the spindle's operating band, in milli-RPM
/// (5000 RPM).
pub const SPINDLE_MIN_MRPM: u64 = 5_000_000;

/// Highest rotational speed of the spindle's operating band, in milli-RPM
/// (24000 RPM).
pub const SPINDLE_MAX_MRPM: u64 = 24_000_000;

/// Largest torque, in piconewton-metres, that a spindle within
/// [`POWER_MW_MAX`] can deliver: the torque of the maximal power at the low
/// end of the operating band.
pub const SPINDLE_TORQUE_PNM_MAX: u64 = 10_000_000_000_000_000;

/// Torque in piconewton-metres that a spindle of the given rated power
/// delivers when asked for the given rotational speed: the speed is clamped
/// into the operating band first, then torque = power / angular speed.
pub open spec fn spindle_torque_pnm(power_mw: int, mrpm: int) -> int {
    torque_of_power_pnm(
        power_mw,
        clamped(mrpm, SPINDLE_MIN_MRPM as int, SPINDLE_MAX_MRPM as int),
    )
}

/// The torque of a power within [`POWER_MW_MAX`] at any speed at or above
/// the bottom of the operating band stays within
/// [`SPINDLE_TORQUE_PNM_MAX`].
pub proof fn lemma_spindle_torque_fits(power_mw: int, mrpm: int)
    requires
        0 <= power_mw <= POWER_MW_MAX,
        SPINDLE_MIN_MRPM <= mrpm,
    ensures
        0 <= torque_of_power_pnm(power_mw, mrpm) <= SPINDLE_TORQUE_PNM_MAX,
{
    let num = power_mw * 30_000_000_000_000 * (PI_DEN as int);
    let den = (PI_NUM as int) * mrpm;
    lemma_div_pos_is_pos(num, den);
    lemma_div_bound(
        num,
        150_000_000_000_000_000_000_000_000_000_000_000_000,
        den,
        15_707_963_267_948_965_000_000,
    );
}

/// The spindle: a motor with a rated power, spinning within a fixed
/// operating band.
#[derive(Debug, Clone, Copy)]
pub struct Spindle {
    power: Power,
}

impl View for Spindle {
    type V = nat;

    /// The rated power in milliwatts.
    closed spec fn view(&self) -> nat {
        self.power@
    }
}

impl Spindle {
    #[verifier::type_invariant]
    spec fn wf(&self) -> bool {
        self.power@ <= POWER_MW_MAX
    }

    /// Create a spindle with the given rated power.
    pub fn new(power: Power) -> (r: Spindle)
        requires
            power@ <= POWER_MW_MAX,
        ensures
            r@ == power@,
    {
        Spindle { power }
    }

    /// Calculate the torque the spindle delivers at a given rotational
    /// speed. The requested speed is clamped into the operating band, so the
    /// calculation always succeeds.
    pub fn torque(&self, rotational_speed: RotationalSpeed) -> (r: Torque)
        ensures
            r@ == spindle_torque_pnm(self@ as int, rotational_speed@ as int),
            r@ <= SPINDLE_TORQUE_PNM_MAX,
    {
        proof {
            use_type_invariant(&*self);
        }
        let min = RotationalSpeed::from_value_mrpm(SPINDLE_MIN_MRPM);
        let max = RotationalSpeed::from_value_mrpm(SPINDLE_MAX_MRPM);
        let in_band = rotational_speed.clamp(min, max);
        proof {
            lemma_spindle_torque_fits(self@ as int, in_band@ as int);
        }
        self.power.to_torque(in_band)
    }
}

/// Clamping makes the spindle insensitive to requests outside its operating
/// band: any speed at or below the bottom of the band yields the same torque
/// as the bottom itself, and any speed at or above the top yields the same
/// torque as the top.
pub proof fn lemma_spindle_torque_clamped_at_bounds(power_mw: int, mrpm: int)
    ensures
        mrpm <= SPINDLE_MIN_MRPM ==> spindle_torque_pnm(power_mw, mrpm) == spindle_torque_pnm(
            power_mw,
            SPINDLE_MIN_MRPM as int,
        ),
        mrpm >= SPINDLE_MAX_MRPM ==> spindle_torque_pnm(power_mw, mrpm) == spindle_torque_pnm(
            power_mw,
            SPINDLE_MAX_MRPM as int,
        ),
{
}

/// Within the operating band, spindle torque is strictly decreasing in the
/// rotational speed, since torque = power / angular speed. The bound on the
/// power from below (61 mW) is what the piconewton-metre granularity needs
/// so that one milli-RPM step always changes the stored torque.
pub proof fn lemma_spindle_torque_strictly_decreasing(power_mw: int, m1: int, m2: int)
    requires
        61 <= power_mw,
        SPINDLE_MIN_MRPM <= m1 < m2 <= SPINDLE_MAX_MRPM,
    ensures
        spindle_torque_pnm(power_mw, m1) > spindle_torque_pnm(power_mw, m2),
{
    let num = power_mw * 30_000_000_000_000 * (PI_DEN as int);
    assert(num >= 1_830_000_000_000_000_000_000_000_000_000);
    lemma_mul_le(m1, 24_000_000, m2, 24_000_000);
    assert((PI_NUM as int) * m1 * m2 < num) by (nonlinear_arith)
        requires
            m1 * m2 <= 576_000_000_000_000,
            1 <= m1,
            num >= 1_830_000_000_000_000_000_000_000_000_000,
    ;
    lemma_div_strictly_ordered_by_denominator(num, PI_NUM as int, m1, m2);
}

} // verus!
