//! The counter that a browser session carries: every request reads it and
//! leaves it larger by a fixed step.

use vstd::prelude::*;

verus! {

/// The key under which the counter lies in the session.
pub const COUNTER_KEY: &'static str = "counter";

/// By how much one request advances the counter.
pub const COUNTER_STEP: usize = 4;

/// The counter of one session.
#[derive(Debug, Clone, Copy, PartialEq, Eq, Structural)]
pub struct Counter(pub usize);

impl Default for Counter {
    fn default() -> (counter: Self)
        ensures
            counter.0 == 0,
    {
        Counter(0)
    }
}

/// The counter that a session holds: the stored one, or zero if the session
/// holds none yet.
pub open spec fn current(stored: Option<usize>) -> usize {
    match stored {
        Some(value) => value,
        None => 0,
    }
}

impl Counter {
    /// One request: the counter that the request sees, and the value that the
    /// session is to hold after it. The step must fit.
    pub fn advance(stored: Option<usize>) -> (step: (Counter, usize))
        requires
            current(stored) + COUNTER_STEP <= usize::MAX,
        ensures
            step.0.0 == current(stored),
            step.1 == current(stored) + COUNTER_STEP,
    {
        let seen = match stored {
            Some(value) => Counter(value),
            None => Counter::default(),
        };
        (seen, seen.0 + COUNTER_STEP)
    }

    /// Whether [`Counter::advance`] can be called on `stored`.
    pub fn can_advance(stored: Option<usize>) -> (fits: bool)
        ensures
            fits == (current(stored) + COUNTER_STEP <= usize::MAX),
    {
        match stored {
            Some(value) => value <= usize::MAX - COUNTER_STEP,
            None => true,
        }
    }

    /// The counter as a signed 32-bit number: its low 32 bits.
    pub fn shown(&self) -> (value: i32)
        ensures
            value == self.0 as i32,
    {
        #[verifier::truncate]
        (self.0 as i32)
    }
}

} // verus!
