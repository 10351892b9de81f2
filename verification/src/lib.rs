//! Sizing calculations for a small CNC milling machine.
//!
//! The library models physical quantities (length, force, torque, power,
//! rotational and linear speed) as fixed-point integers over explicitly named
//! units, and builds on them a cutting-force evaluation pipeline: for every
//! tool in a fixed catalog it derives the desired spindle speed, the
//! worst-case tangential cutting force, and the torque that force demands,
//! compares that demand against what the spindle can deliver at the (clamped)
//! speed, and selects the governing worst case across the whole catalog.
//!
//! All arithmetic is integer arithmetic at fine resolutions (nanometres,
//! micronewtons, piconewton-metres, milliwatts, milli-RPM), with a rational
//! approximation of pi, so that every computation has an exact contract.

pub mod arith;
pub mod evaluate;
pub mod machine;
pub mod physics;
pub mod spindle;
pub mod tools;
