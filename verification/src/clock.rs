//! A worker's clock: whole seconds since it started. What it reads depends
//! on time; a [`Stopwatch`] records every reading it hands out, so that a
//! contract can say how the readings were used.

use std::time::{Duration, Instant};
use vstd::prelude::*;

verus! {

#[verifier::external_type_specification]
#[verifier::external_body]
pub struct ExInstant(Instant);

/// Calls `std::time::Instant::now`.
#[verifier::external_body]
fn start_timer() -> Instant {
    Instant::now()
}

/// Calls `Instant::elapsed`, the time since `timer` started. It depends on
/// the clock, so nothing is stated of it.
#[verifier::external_body]
fn elapsed(timer: &Instant) -> Duration {
    timer.elapsed()
}

/// Calls `Duration::as_secs`, the whole seconds of a duration; the duration
/// is opaque here, so nothing is stated of them.
#[verifier::external_body]
fn whole_secs(d: Duration) -> u64 {
    d.as_secs()
}

/// A timer started at a moment, which keeps, as ghost state, every reading
/// it has handed out, in order. Only [`Stopwatch::read`] adds to it.
pub struct Stopwatch {
    timer: Instant,
    history: Ghost<Seq<u64>>,
}

impl Stopwatch {
    /// The readings handed out so far, in order.
    pub closed spec fn readings(&self) -> Seq<u64> {
        self.history@
    }

    /// A stopwatch started now, with no readings yet.
    pub fn start() -> (r: Self)
        ensures
            r.readings() == Seq::<u64>::empty(),
    {
        Stopwatch { timer: start_timer(), history: Ghost(Seq::empty()) }
    }

    /// The whole seconds since the stopwatch started, recorded as the next
    /// reading.
    pub fn read(&mut self) -> (r: u64)
        ensures
            final(self).readings() == old(self).readings().push(r),
    {
        let r = whole_secs(elapsed(&self.timer));
        self.history = Ghost(self.history@.push(r));
        r
    }
}

} // verus!
