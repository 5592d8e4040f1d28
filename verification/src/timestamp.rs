//! Points in time and spans of time, both counted in nanoseconds.

use vstd::prelude::*;

verus! {

/// Nanoseconds in a second.
pub const NANOS_PER_SEC: u64 = 1_000_000_000;

/// A span of time: whole seconds and the nanoseconds of the last, unfinished
/// second.
#[derive(Clone, Copy, Debug, PartialEq, Eq, Structural, Hash)]
pub struct Duration {
    pub secs: u64,
    pub nanos: u32,
}

impl Duration {
    /// The nanosecond part is less than a second.
    pub open spec fn wf(&self) -> bool {
        self.nanos < NANOS_PER_SEC
    }

    /// The span as a number of nanoseconds.
    pub open spec fn total_nanos(&self) -> int {
        self.secs * NANOS_PER_SEC + self.nanos
    }

    pub fn from_secs(secs: u64) -> (r: Duration)
        ensures
            r == (Duration { secs, nanos: 0 }),
            r.wf(),
            r.total_nanos() == secs * NANOS_PER_SEC,
    {
        Duration { secs, nanos: 0 }
    }

    pub fn from_nanos(nanos: u64) -> (r: Duration)
        ensures
            r == span_of_nanos(nanos),
            r.wf(),
            r.total_nanos() == nanos,
    {
        let secs: u64 = nanos / NANOS_PER_SEC;
        let rest: u64 = nanos % NANOS_PER_SEC;
        assert(secs * NANOS_PER_SEC + rest == nanos) by (nonlinear_arith)
            requires
                secs == nanos / NANOS_PER_SEC,
                rest == nanos % NANOS_PER_SEC,
        ;
        Duration { secs, nanos: rest as u32 }
    }

    /// Whether the nanosecond part is less than a second.
    pub fn is_wf(&self) -> (r: bool)
        ensures
            r == self.wf(),
    {
        self.nanos < 1_000_000_000
    }

    /// The span as a number of nanoseconds.
    pub fn as_nanos(&self) -> (r: u128)
        ensures
            r == self.total_nanos(),
    {
        let secs: u128 = self.secs as u128;
        assert(secs * 1_000_000_000 <= 0xffff_ffff_ffff_ffff * 1_000_000_000) by (nonlinear_arith)
            requires
                secs <= 0xffff_ffff_ffff_ffff,
        ;
        secs * 1_000_000_000 + self.nanos as u128
    }

    /// Whether this span is at least as long as `other`.
    pub fn ge(&self, other: &Duration) -> (r: bool)
        ensures
            r == (self.total_nanos() >= other.total_nanos()),
    {
        self.as_nanos() >= other.as_nanos()
    }
}

/// The span of a number of nanoseconds: the whole seconds, and what is left.
pub open spec fn span_of_nanos(nanos: u64) -> Duration {
    Duration { secs: nanos / NANOS_PER_SEC, nanos: (nanos % NANOS_PER_SEC) as u32 }
}

/// A point in time as nanoseconds since the Unix epoch. Zero stands for "no
/// timestamp".
#[derive(Clone, Copy, Debug, PartialEq, Eq, Structural, Hash)]
pub struct Timestamp {
    pub nanos: u64,
}

/// The time from `earlier` to `later`, where both are set and `earlier` is
/// not after `later`.
pub open spec fn elapsed_nanos(later: Timestamp, earlier: Timestamp) -> Option<int> {
    if later.nanos != 0 && earlier.nanos != 0 && earlier.nanos <= later.nanos {
        Some(later.nanos - earlier.nanos)
    } else {
        None
    }
}

impl Timestamp {
    pub fn from_nanoseconds(nanos: u64) -> (r: Timestamp)
        ensures
            r == (Timestamp { nanos }),
    {
        Timestamp { nanos }
    }

    /// The unset timestamp.
    pub fn none() -> (r: Timestamp)
        ensures
            r == (Timestamp { nanos: 0 }),
            !r.is_set(),
    {
        Timestamp { nanos: 0 }
    }

    pub open spec fn is_set(&self) -> bool {
        self.nanos != 0
    }

    pub fn nanoseconds(&self) -> (r: u64)
        ensures
            r == self.nanos,
    {
        self.nanos
    }

    /// The span from `other` to this timestamp. There is none where either
    /// is unset or where `other` is the later one.
    pub fn duration_since(&self, other: &Timestamp) -> (r: Option<Duration>)
        ensures
            elapsed_nanos(*self, *other) is Some <==> r is Some,
            r matches Some(d) ==> d.wf() && Some(d.total_nanos()) == elapsed_nanos(*self, *other),
    {
        if self.nanos == 0 || other.nanos == 0 || other.nanos > self.nanos {
            None
        } else {
            Some(Duration::from_nanos(self.nanos - other.nanos))
        }
    }
}

} // verus!
