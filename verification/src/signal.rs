//! Signal sets: one bit per signal number, signal `n` (1..=64) at bit `n - 1`.
use vstd::prelude::*;

verus! {

/// The highest signal number.
pub const SIGNAL_MAX: usize = 64;

/// A set of signals.
#[derive(Clone, Copy, Debug, PartialEq, Eq)]
pub struct Signals {
    pub bits: u64,
}

/// The bit that stands for signal `signum` (1..=64).
pub open spec fn signal_bit(signum: usize) -> u64
    recommends
        1 <= signum <= 64,
{
    1u64 << ((signum - 1) as u64)
}

impl Signals {
    /// The empty set.
    pub fn empty() -> (s: Signals)
        ensures
            s.bits == 0,
    {
        Signals { bits: 0 }
    }

    /// Whether the set holds no signal.
    pub fn is_empty(&self) -> (b: bool)
        ensures
            b == (self.bits == 0),
    {
        self.bits == 0
    }

    /// The set of one signal; signal number 0 gives the empty set and a number
    /// above 64 is refused.
    pub fn from_signum(signum: usize) -> (r: Option<Signals>)
        ensures
            signum > SIGNAL_MAX <==> r is None,
            signum == 0 ==> r == Some((Signals { bits: 0 })),
            1 <= signum <= SIGNAL_MAX ==> r == Some((Signals { bits: signal_bit(signum) })),
    {
        if signum == 0 {
            Some(Signals { bits: 0 })
        } else if signum <= SIGNAL_MAX {
            let k: u64 = (signum - 1) as u64;
            Some(Signals { bits: 1u64 << k })
        } else {
            None
        }
    }

    /// The union of two sets.
    pub fn union(self, other: Signals) -> (s: Signals)
        ensures
            s.bits == self.bits | other.bits,
    {
        Signals { bits: self.bits | other.bits }
    }

    /// Every signal of `other` is in `self`.
    pub open spec fn contains_all(self, other: Signals) -> bool {
        self.bits & other.bits == other.bits
    }
}

/// A union holds both of its parts.
pub proof fn lemma_union_contains(a: Signals, b: Signals)
    ensures
        (Signals { bits: a.bits | b.bits }).contains_all(b),
        (Signals { bits: a.bits | b.bits }).contains_all(a),
{
    let x = a.bits;
    let y = b.bits;
    assert((x | y) & y == y) by (bit_vector);
    assert((x | y) & x == x) by (bit_vector);
}

/// The bit of a valid signal number is not zero.
pub proof fn lemma_signal_bit_nonzero(signum: usize)
    requires
        1 <= signum <= SIGNAL_MAX,
    ensures
        signal_bit(signum) != 0,
{
    let k: u64 = (signum - 1) as u64;
    assert(k < 64);
    assert(k < 64 ==> (1u64 << k) != 0) by (bit_vector);
}

} // verus!
