//! The decisions of the user library's system-call wrappers.
use vstd::prelude::*;

verus! {

/// The `options` of `wait4` that make `waitpid_nohang` return at once.
pub const WNOHANG: usize = 1;

/// The process id `wait` hands to `wait4`: any child.
pub const ANY_CHILD: isize = -1;

/// Whether a busy-wait `sleep` of `period_ms` milliseconds that began at
/// `start` is over at time `now`: the deadline is the start plus the period
/// taken as a signed count, in wrapping machine arithmetic, so a period
/// above `isize::MAX` counts as negative.
pub fn sleep_elapsed(start: isize, now: isize, period_ms: usize) -> (b: bool)
    ensures
        b == (now >= start.wrapping_add(period_ms as isize)),
{
    let deadline = start.wrapping_add(period_ms as isize);
    !(now < deadline)
}

} // verus!
