//! A stopwatch.

use vstd::prelude::*;
use std::time::Duration;
use std::time::Instant;

verus! {

/// `std::time::Instant`, carried through as an opaque value.
#[verifier::external_type_specification]
#[verifier::external_body]
pub struct ExInstant(Instant);

/// Calls `std::time::Instant::now`. What the clock reads is not a function
/// of anything the library holds, so nothing is claimed of it.
#[verifier::external_body]
fn now() -> Instant {
    Instant::now()
}

/// Calls `std::time::Instant::elapsed`: the time since the instant was
/// read. Nothing is claimed of it.
#[verifier::external_body]
fn since(start: &Instant) -> Duration {
    start.elapsed()
}

/// A stopwatch: it holds the instant at which it was last started.
pub struct Timer {
    start_time: Instant,
}

impl Timer {
    /// A stopwatch that starts now.
    pub fn new() -> Timer {
        Timer { start_time: now() }
    }

    /// Starts the stopwatch again.
    pub fn start(&mut self) {
        self.start_time = now();
    }

    /// The time since the stopwatch was last started.
    pub fn elapsed(&self) -> Duration {
        since(&self.start_time)
    }
}

} // verus!
