//! The single-step integrators.

pub mod euler_maruyama;
pub mod milstein;
pub mod srk;
