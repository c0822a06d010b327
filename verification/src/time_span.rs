//! Lengths of time.
use vstd::prelude::*;

verus! {

/// A length of time: whole seconds, and the nanoseconds past them.
#[derive(Debug, Clone, Copy, PartialEq, Eq, Structural)]
pub struct TimeSpan {
    /// The whole seconds.
    pub secs: u64,
    /// The nanoseconds past the whole seconds, below one billion.
    pub subsec_nanos: u32,
}

impl TimeSpan {
    /// The nanoseconds past the whole seconds make no further second.
    pub open spec fn wf(self) -> bool {
        self.subsec_nanos < 1_000_000_000
    }

    /// The length in nanoseconds.
    pub open spec fn total_nanos(self) -> nat {
        (self.secs * 1_000_000_000 + self.subsec_nanos) as nat
    }

    /// A number of whole seconds.
    pub fn from_secs(secs: u64) -> (span: TimeSpan)
        ensures
            span == (TimeSpan { secs, subsec_nanos: 0 }),
            span.wf(),
    {
        TimeSpan { secs, subsec_nanos: 0 }
    }

    /// The whole milliseconds.
    pub fn as_millis(&self) -> (millis: u128)
        ensures
            millis == self.total_nanos() / 1_000_000,
    {
        self.secs as u128 * 1000 + (self.subsec_nanos / 1_000_000) as u128
    }
}

} // verus!
