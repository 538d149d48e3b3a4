use vstd::prelude::*;

verus! {

/// Microseconds in one millisecond.
pub const MICROS_PER_MILLI: u64 = 1_000;

/// Microseconds in one second.
pub const MICROS_PER_SEC: u64 = 1_000_000;

/// A span of time, counted in whole microseconds.
#[derive(Clone, Copy, Debug, PartialEq, Eq, Structural)]
pub struct Duration {
    micros: u64,
}

impl View for Duration {
    type V = nat;

    /// The length of the span in microseconds.
    closed spec fn view(&self) -> nat {
        self.micros as nat
    }
}

impl Duration {
    /// The span of `micros` microseconds.
    pub fn from_micros(micros: u64) -> (d: Duration)
        ensures
            d@ == micros,
    {
        Duration { micros }
    }

    /// The span of `millis` milliseconds.
    pub fn from_millis(millis: u64) -> (d: Duration)
        requires
            millis * MICROS_PER_MILLI <= u64::MAX,
        ensures
            d@ == millis * MICROS_PER_MILLI,
    {
        Duration { micros: millis * MICROS_PER_MILLI }
    }

    /// The span of `secs` seconds.
    pub fn from_secs(secs: u64) -> (d: Duration)
        requires
            secs * MICROS_PER_SEC <= u64::MAX,
        ensures
            d@ == secs * MICROS_PER_SEC,
    {
        Duration { micros: secs * MICROS_PER_SEC }
    }

    /// A span is never longer than the largest `u64` count of microseconds.
    pub proof fn lemma_bounded(&self)
        ensures
            self@ <= u64::MAX,
    {
    }

    /// The length of the span in microseconds.
    pub fn as_micros(&self) -> (r: u64)
        ensures
            r == self@,
    {
        self.micros
    }

    /// Whether the span is empty.
    pub fn is_zero(&self) -> (r: bool)
        ensures
            r == (self@ == 0),
    {
        self.micros == 0
    }
}

} // verus!
