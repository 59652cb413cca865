//! The Euler-Maruyama integrator.

use vstd::prelude::*;

verus! {

/// The Euler-Maruyama integrator: drift times the increment of time, plus
/// diffusion times the Brownian increment. It holds no state.
#[derive(Clone, Copy, Debug, PartialEq, Eq, Structural)]
pub struct EulerMaruyama;

impl EulerMaruyama {
    /// The integrator.
    pub fn new() -> (r: EulerMaruyama)
        ensures
            r == EulerMaruyama,
    {
        EulerMaruyama
    }
}

} // verus!
