//! The models whose paths are simulated.

pub mod heston;
