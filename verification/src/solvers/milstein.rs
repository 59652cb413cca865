//! The Milstein integrator.

use vstd::prelude::*;

verus! {

/// The Milstein integrator: the Euler-Maruyama step with the correction
/// that the derivative of the diffusion gives. It holds no state.
#[derive(Clone, Copy, Debug, PartialEq, Eq, Structural)]
pub struct Milstein;

impl Milstein {
    /// The integrator.
    pub fn new() -> (r: Milstein)
        ensures
            r == Milstein,
    {
        Milstein
    }
}

} // verus!
