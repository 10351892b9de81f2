//! Fixed dimensions of the machine frame.

use vstd::prelude::*;
use crate::physics::Length;

verus! {

/// Thickness of the machine table on the y axis.
pub fn table_thickness() -> (r: Length)
    ensures
        r@ == 10_000_000,
{
    Length::from_value_mm(10)
}

/// The max travel of the z-axis.
pub fn max_travel() -> (r: Length)
    ensures
        r@ == 100_000_000,
{
    Length::from_value_mm(100)
}

/// Total height of an MGN15 linear rail carriage above its mounting surface.
pub fn mgn15_height_total() -> (r: Length)
    ensures
        r@ == 16_000_000,
{
    Length::from_value_mm(16)
}

} // verus!
