//! The stochastic Runge-Kutta integrator.

use vstd::prelude::*;

verus! {

/// The stochastic Runge-Kutta integrator: drift and diffusion are averaged
/// over the state and a predicted next state. It holds no state.
#[derive(Clone, Copy, Debug, PartialEq, Eq, Structural)]
pub struct Srk;

impl Srk {
    /// The integrator.
    pub fn new() -> (r: Srk)
        ensures
            r == Srk,
    {
        Srk
    }
}

} // verus!
