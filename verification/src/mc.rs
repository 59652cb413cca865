//! Monte Carlo pricing: contracts, configuration and the rules of the
//! estimators.

pub mod mc_engine;
pub mod payoffs;
