//! Monte Carlo pricing of derivatives on simulated stochastic differential
//! equations: the verified core.
//!
//! Every real number that crosses this library is carried as the bit pattern
//! of an IEEE-754 double ([`ieee::Double`]). Classifying and comparing such
//! values is exact on the bits, so every rule that accepts, rejects or
//! branches on a value is stated and proved here; the arithmetic that
//! produces the values is done by the caller.

pub mod ieee;
pub mod rng;
pub mod error;
pub mod models;
pub mod mc;
pub mod solvers;
pub mod math_utils;
