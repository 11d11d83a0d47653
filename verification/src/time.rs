//! Time values (`TimeSpec`, `TimeVal`) and the clock readings the system calls
//! convert between.
use vstd::prelude::*;

verus! {

pub const NSEC_PER_SEC: usize = 1_000_000_000;
pub const USEC_PER_SEC: usize = 1_000_000;

/// Seconds and nanoseconds.
#[derive(Clone, Copy, Debug, PartialEq, Eq)]
pub struct TimeSpec {
    pub tv_sec: usize,
    pub tv_nsec: usize,
}

/// Seconds and microseconds.
#[derive(Clone, Copy, Debug, PartialEq, Eq)]
pub struct TimeVal {
    pub tv_sec: usize,
    pub tv_usec: usize,
}

/// The normalized time of `n` nanoseconds.
pub open spec fn ts_of_ns(n: int) -> TimeSpec {
    TimeSpec { tv_sec: (n / (NSEC_PER_SEC as int)) as usize, tv_nsec: (n % (NSEC_PER_SEC as int)) as usize }
}

/// A normalized time is the one its nanoseconds name.
pub proof fn lemma_ts_of_total(t: TimeSpec)
    requires
        t.normalized(),
    ensures
        ts_of_ns(t.total_ns()) == t,
{
    vstd::arithmetic::div_mod::lemma_fundamental_div_mod_converse(
        t.total_ns(),
        NSEC_PER_SEC as int,
        t.tv_sec as int,
        t.tv_nsec as int,
    );
}

impl TimeSpec {
    /// The time in nanoseconds that the value stands for.
    pub open spec fn total_ns(self) -> int {
        self.tv_sec * NSEC_PER_SEC + self.tv_nsec
    }

    /// The nanosecond part is below one second.
    pub open spec fn normalized(self) -> bool {
        self.tv_nsec < NSEC_PER_SEC
    }

    /// The zero time.
    pub fn new() -> (t: TimeSpec)
        ensures
            t.tv_sec == 0,
            t.tv_nsec == 0,
    {
        TimeSpec { tv_sec: 0, tv_nsec: 0 }
    }

    /// The normalized time of `ns` nanoseconds.
    pub fn from_ns(ns: usize) -> (t: TimeSpec)
        ensures
            t.normalized(),
            t.total_ns() == ns,
    {
        let t = TimeSpec { tv_sec: ns / NSEC_PER_SEC, tv_nsec: ns % NSEC_PER_SEC };
        assert(t.total_ns() == ns) by {
            vstd::arithmetic::div_mod::lemma_fundamental_div_mod(ns as int, NSEC_PER_SEC as int);
        }
        t
    }

    /// The sum of two times, normalized; the nanosecond parts need not be.
    pub fn add(self, other: TimeSpec) -> (t: TimeSpec)
        requires
            self.tv_nsec + other.tv_nsec <= usize::MAX,
            self.tv_sec + other.tv_sec + (self.tv_nsec + other.tv_nsec) / (NSEC_PER_SEC as int)
                <= usize::MAX,
        ensures
            t.normalized(),
            t.total_ns() == self.total_ns() + other.total_ns(),
    {
        let nsec = self.tv_nsec + other.tv_nsec;
        let sec = self.tv_sec + other.tv_sec + nsec / NSEC_PER_SEC;
        let t = TimeSpec { tv_sec: sec, tv_nsec: nsec % NSEC_PER_SEC };
        assert(t.total_ns() == self.total_ns() + other.total_ns()) by {
            vstd::arithmetic::div_mod::lemma_fundamental_div_mod(nsec as int, NSEC_PER_SEC as int);
        }
        t
    }

    /// `self` comes no later than `other`.
    pub fn le(&self, other: &TimeSpec) -> (b: bool)
        requires
            self.normalized(),
            other.normalized(),
        ensures
            b == (self.total_ns() <= other.total_ns()),
    {
        self.tv_sec < other.tv_sec || (self.tv_sec == other.tv_sec && self.tv_nsec <= other.tv_nsec)
    }

    /// The time from `other` to `self`, or zero when `other` is not earlier.
    pub fn sub(self, other: TimeSpec) -> (t: TimeSpec)
        requires
            self.normalized(),
            other.normalized(),
        ensures
            t.normalized(),
            t.total_ns() == if self.total_ns() <= other.total_ns() {
                0
            } else {
                self.total_ns() - other.total_ns()
            },
    {
        if self.le(&other) {
            TimeSpec::new()
        } else if self.tv_nsec >= other.tv_nsec {
            TimeSpec { tv_sec: self.tv_sec - other.tv_sec, tv_nsec: self.tv_nsec - other.tv_nsec }
        } else {
            TimeSpec {
                tv_sec: self.tv_sec - other.tv_sec - 1,
                tv_nsec: self.tv_nsec + NSEC_PER_SEC - other.tv_nsec,
            }
        }
    }
}

} // verus!
