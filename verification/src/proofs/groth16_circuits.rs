//! The values of the Groth16 location circuit.

use vstd::prelude::*;

verus! {

/// The assignment of the Groth16 location circuit: private `x`, `y` and the public
/// bounds, each a 32-bit integer. The circuit requires `x_min <= x <= x_max` and
/// `y_min <= y <= y_max`; it does not open the coordinate commitment. Its public
/// inputs are allocated in the order `x_min`, `x_max`, `y_min`, `y_max`.
#[derive(Debug, Clone, Copy, PartialEq, Eq, Structural)]
pub struct LocationR1CS {
    /// Private x coordinate (witness).
    pub x: u32,
    /// Private y coordinate (witness).
    pub y: u32,
    /// Lower x bound (public input).
    pub x_min: u32,
    /// Upper x bound (public input).
    pub x_max: u32,
    /// Lower y bound (public input).
    pub y_min: u32,
    /// Upper y bound (public input).
    pub y_max: u32,
}

} // verus!
