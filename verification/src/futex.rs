//! `futex`: validating a request and deciding the operation, including the
//! arithmetic of `FUTEX_WAKE_OP`.
use vstd::prelude::*;
use crate::errno::{EINVAL, ENOSYS};
use crate::time::TimeSpec;

verus! {

/// Futex commands, numbered as in Linux; other numbers are `Invalid`.
#[derive(Clone, Copy, Debug, PartialEq, Eq, Structural)]
pub enum FutexCmd {
    Wait,
    Wake,
    Fd,
    Requeue,
    CmpRequeue,
    WakeOp,
    LockPi,
    UnlockPi,
    TrylockPi,
    WaitBitset,
    WakeBitset,
    WaitRequeuePi,
    CmpRequeuePi,
    Invalid,
}

/// The command numbered `v`.
pub open spec fn futex_cmd_of(v: u32) -> FutexCmd {
    if v == 0 {
        FutexCmd::Wait
    } else if v == 1 {
        FutexCmd::Wake
    } else if v == 2 {
        FutexCmd::Fd
    } else if v == 3 {
        FutexCmd::Requeue
    } else if v == 4 {
        FutexCmd::CmpRequeue
    } else if v == 5 {
        FutexCmd::WakeOp
    } else if v == 6 {
        FutexCmd::LockPi
    } else if v == 7 {
        FutexCmd::UnlockPi
    } else if v == 8 {
        FutexCmd::TrylockPi
    } else if v == 9 {
        FutexCmd::WaitBitset
    } else if v == 10 {
        FutexCmd::WakeBitset
    } else if v == 11 {
        FutexCmd::WaitRequeuePi
    } else if v == 12 {
        FutexCmd::CmpRequeuePi
    } else {
        FutexCmd::Invalid
    }
}

impl FutexCmd {
    /// The command numbered `v`.
    pub fn from_primitive(v: u32) -> (c: FutexCmd)
        ensures
            c == futex_cmd_of(v),
    {
        match v {
            0 => FutexCmd::Wait,
            1 => FutexCmd::Wake,
            2 => FutexCmd::Fd,
            3 => FutexCmd::Requeue,
            4 => FutexCmd::CmpRequeue,
            5 => FutexCmd::WakeOp,
            6 => FutexCmd::LockPi,
            7 => FutexCmd::UnlockPi,
            8 => FutexCmd::TrylockPi,
            9 => FutexCmd::WaitBitset,
            10 => FutexCmd::WakeBitset,
            11 => FutexCmd::WaitRequeuePi,
            12 => FutexCmd::CmpRequeuePi,
            _ => FutexCmd::Invalid,
        }
    }
}

/// The option bit of a process-private futex.
pub const FUTEX_PRIVATE: u32 = 128;
/// The option bit that selects the real-time clock.
pub const FUTEX_CLOCK_REALTIME: u32 = 256;

/// A futex address: not null and aligned to four bytes.
pub open spec fn futex_addr_ok(addr: usize) -> bool {
    addr != 0 && addr % 4 == 0
}

fn addr_ok(addr: usize) -> (b: bool)
    ensures
        b == futex_addr_ok(addr),
{
    addr != 0 && addr % 4 == 0
}

/// The value `FUTEX_WAKE_OP` stores at the second futex: operation `op`
/// applied to the old value and `arg`, or nothing for an unknown operation.
pub open spec fn wake_op_value(op: u32, oldval: u32, arg: u32) -> Option<u32> {
    if op == 0 {
        Some(arg)
    } else if op == 1 {
        Some(((oldval + arg) % 0x1_0000_0000) as u32)
    } else if op == 2 {
        Some(oldval | arg)
    } else if op == 3 {
        Some(oldval & !arg)
    } else if op == 4 {
        Some(oldval ^ arg)
    } else {
        None
    }
}

/// Whether `FUTEX_WAKE_OP` also wakes waiters of the second futex: comparison
/// `rel` of the old value with `arg`; unknown comparisons hold.
pub open spec fn wake_op_cond(rel: u32, oldval: u32, arg: u32) -> bool {
    if rel == 0 {
        oldval == arg
    } else if rel == 1 {
        oldval != arg
    } else if rel == 2 {
        oldval < arg
    } else if rel == 3 {
        oldval <= arg
    } else if rel == 4 {
        oldval > arg
    } else if rel == 5 {
        oldval >= arg
    } else {
        true
    }
}

/// The operation field of `val3`.
pub open spec fn wake_op_op(val3: u32) -> u32 {
    (val3 >> 28u32) & 0xf
}

/// The comparison field of `val3`.
pub open spec fn wake_op_relation(val3: u32) -> u32 {
    (val3 >> 24u32) & 0xf
}

/// The argument field of `val3`, used both by the operation and by the
/// comparison.
pub open spec fn wake_op_arg(val3: u32) -> u32 {
    val3 & 0xfff
}

/// Decodes `val3` of `FUTEX_WAKE_OP` against the old value of the second
/// futex: the value to store and whether to wake its waiters, or nothing for
/// an unknown operation.
pub fn futex_wake_op(val3: u32, oldval: u32) -> (r: Option<(u32, bool)>)
    ensures
        r is None <==> wake_op_value(wake_op_op(val3), oldval, wake_op_arg(val3)) is None,
        r matches Some((v, c)) ==> (Some(v) == wake_op_value(
            wake_op_op(val3),
            oldval,
            wake_op_arg(val3),
        ) && c == wake_op_cond(wake_op_relation(val3), oldval, wake_op_arg(val3))),
{
    let op = (val3 >> 28u32) & 0xf;
    let rel = (val3 >> 24u32) & 0xf;
    let oparg = val3 & 0xfff;
    let newval = match op {
        0 => oparg,
        1 => oldval.wrapping_add(oparg),
        2 => oldval | oparg,
        3 => oldval & !oparg,
        4 => oldval ^ oparg,
        _ => return None,
    };
    let cond = match rel {
        0 => oldval == oparg,
        1 => oldval != oparg,
        2 => oldval < oparg,
        3 => oldval <= oparg,
        4 => oldval > oparg,
        5 => oldval >= oparg,
        _ => true,
    };
    Some((newval, cond))
}

/// What a futex call asks of the kernel.
#[derive(Clone, Copy, Debug, PartialEq, Eq)]
pub enum FutexAction {
    /// Return this value.
    Return(isize),
    /// Sleep on `uaddr` while it holds `val`, until the timeout if one is given.
    Wait { uaddr: usize, val: u32, timeout: Option<TimeSpec> },
    /// Wake up to `nr` waiters of `uaddr`.
    Wake { uaddr: usize, nr: u32 },
    /// Wake up to `nr_wake` waiters of `uaddr` and move up to `nr_requeue` of
    /// the rest to `uaddr2`.
    Requeue { uaddr: usize, uaddr2: usize, nr_wake: u32, nr_requeue: u32 },
    /// Store `newval` at `uaddr2`, wake up to `nr` waiters of `uaddr`, and, if
    /// `cond`, of `uaddr2` too.
    WakeOp { uaddr: usize, uaddr2: usize, nr: u32, newval: u32, cond: bool },
}

/// Decides a futex call. `word` is whether the first address translated (or
/// its error), `timeout` the timeout read from user space (`None` for a null
/// pointer, or the error of a failed read), `timeout_arg` the raw timeout
/// argument (the requeue count of `FUTEX_REQUEUE`), `word2` the value at the
/// second address (or the error of its translation). An unaligned or null
/// first address is EINVAL; a bad second address for requeue and wake-op is
/// EINVAL; `FUTEX_WAIT_BITSET` with an empty mask is EINVAL; an unknown
/// wake-op operation is EINVAL; an unknown command is EINVAL, and a known
/// command not served here ENOSYS.
pub fn sys_futex(
    uaddr: usize,
    futex_op: u32,
    val: u32,
    timeout_arg: usize,
    uaddr2: usize,
    val3: u32,
    word: Result<(), isize>,
    timeout: Result<Option<TimeSpec>, isize>,
    word2: Result<u32, isize>,
) -> (r: FutexAction)
    ensures
        !futex_addr_ok(uaddr) ==> r == FutexAction::Return(EINVAL),
        futex_addr_ok(uaddr) ==> (word matches Err(e) ==> r == FutexAction::Return(e)),
        futex_addr_ok(uaddr) && word is Ok ==> match futex_cmd_of(futex_op & 0x7f) {
            FutexCmd::Wait => match timeout {
                Ok(t) => r == FutexAction::Wait { uaddr, val, timeout: t },
                Err(e) => r == FutexAction::Return(e),
            },
            FutexCmd::WaitBitset => if val3 == 0 {
                r == FutexAction::Return(EINVAL)
            } else {
                match timeout {
                    Ok(t) => r == FutexAction::Wait { uaddr, val, timeout: t },
                    Err(e) => r == FutexAction::Return(e),
                }
            },
            FutexCmd::Wake => r == FutexAction::Wake { uaddr, nr: val },
            FutexCmd::Requeue => if !futex_addr_ok(uaddr2) {
                r == FutexAction::Return(EINVAL)
            } else {
                match word2 {
                    Ok(_) => r == FutexAction::Requeue {
                        uaddr,
                        uaddr2,
                        nr_wake: val,
                        nr_requeue: timeout_arg as u32,
                    },
                    Err(e) => r == FutexAction::Return(e),
                }
            },
            FutexCmd::WakeOp => if !futex_addr_ok(uaddr2) {
                r == FutexAction::Return(EINVAL)
            } else {
                match word2 {
                    Ok(oldval) => match wake_op_value(wake_op_op(val3), oldval, wake_op_arg(val3)) {
                        Some(nv) => r == FutexAction::WakeOp {
                            uaddr,
                            uaddr2,
                            nr: val,
                            newval: nv,
                            cond: wake_op_cond(wake_op_relation(val3), oldval, wake_op_arg(val3)),
                        },
                        None => r == FutexAction::Return(EINVAL),
                    },
                    Err(e) => r == FutexAction::Return(e),
                }
            },
            FutexCmd::Invalid => r == FutexAction::Return(EINVAL),
            _ => r == FutexAction::Return(ENOSYS),
        },
{
    if !addr_ok(uaddr) {
        return FutexAction::Return(EINVAL);
    }
    if let Err(e) = word {
        return FutexAction::Return(e);
    }
    let cmd = FutexCmd::from_primitive(futex_op & 0x7f);
    match cmd {
        FutexCmd::Wait => match timeout {
            Ok(t) => FutexAction::Wait { uaddr, val, timeout: t },
            Err(e) => FutexAction::Return(e),
        },
        FutexCmd::WaitBitset => {
            if val3 == 0 {
                return FutexAction::Return(EINVAL);
            }
            match timeout {
                Ok(t) => FutexAction::Wait { uaddr, val, timeout: t },
                Err(e) => FutexAction::Return(e),
            }
        },
        FutexCmd::Wake => FutexAction::Wake { uaddr, nr: val },
        FutexCmd::Requeue => {
            if !addr_ok(uaddr2) {
                return FutexAction::Return(EINVAL);
            }
            match word2 {
                Ok(_) => FutexAction::Requeue {
                    uaddr,
                    uaddr2,
                    nr_wake: val,
                    nr_requeue: timeout_arg as u32,
                },
                Err(e) => FutexAction::Return(e),
            }
        },
        FutexCmd::WakeOp => {
            if !addr_ok(uaddr2) {
                return FutexAction::Return(EINVAL);
            }
            match word2 {
                Ok(oldval) => match futex_wake_op(val3, oldval) {
                    Some((newval, cond)) => FutexAction::WakeOp {
                        uaddr,
                        uaddr2,
                        nr: val,
                        newval,
                        cond,
                    },
                    None => FutexAction::Return(EINVAL),
                },
                Err(e) => FutexAction::Return(e),
            }
        },
        FutexCmd::Invalid => FutexAction::Return(EINVAL),
        _ => FutexAction::Return(ENOSYS),
    }
}

/// `FUTEX_WAKE_OP` with `val3` built from an operation `op`, a comparison
/// `cmp` and a 12-bit argument `arg` (`op << 28 | cmp << 24 | arg`) against
/// the old value `oldval` of the second futex: the fields come back as they
/// were put in; the stored value is `arg` (set), `oldval + arg` modulo 2^32
/// (add), `oldval | arg` (or), `oldval & !arg` (and-not) or `oldval ^ arg`
/// (xor), and there is none for operations 5 to 15; the waiters of the second
/// futex are woken exactly when `oldval == arg`, `!=`, `<`, `<=`, `>` or `>=`
/// holds for comparisons 0 to 5 in that order, and always for 6 to 15.
pub proof fn law_wake_op_meaning(op: u32, cmp: u32, arg: u32, oldval: u32)
    requires
        op < 16,
        cmp < 16,
        arg < 0x1000,
    ensures
        ({
            let val3 = (op << 28u32) | (cmp << 24u32) | arg;
            let value = wake_op_value(wake_op_op(val3), oldval, wake_op_arg(val3));
            let cond = wake_op_cond(wake_op_relation(val3), oldval, wake_op_arg(val3));
            &&& wake_op_op(val3) == op && wake_op_relation(val3) == cmp && wake_op_arg(val3) == arg
            &&& op == 0 ==> value == Some(arg)
            &&& op == 1 ==> (value matches Some(v) && (v == oldval + arg || v + 0x1_0000_0000 == oldval + arg))
            &&& op == 2 ==> value == Some(oldval | arg)
            &&& op == 3 ==> value == Some(oldval & !arg)
            &&& op == 4 ==> value == Some(oldval ^ arg)
            &&& op >= 5 ==> value is None
            &&& cmp == 0 ==> (cond <==> oldval == arg)
            &&& cmp == 1 ==> (cond <==> oldval != arg)
            &&& cmp == 2 ==> (cond <==> oldval < arg)
            &&& cmp == 3 ==> (cond <==> oldval <= arg)
            &&& cmp == 4 ==> (cond <==> oldval > arg)
            &&& cmp == 5 ==> (cond <==> oldval >= arg)
            &&& cmp >= 6 ==> cond
        }),
{
    let val3 = (op << 28u32) | (cmp << 24u32) | arg;
    assert(((val3 >> 28u32) & 0xf) == op && ((val3 >> 24u32) & 0xf) == cmp && (val3 & 0xfff) == arg)
        by (bit_vector)
        requires
            op < 16,
            cmp < 16,
            arg < 0x1000,
            val3 == (op << 28u32) | (cmp << 24u32) | arg,
    ;
}

/// The private and real-time-clock option bits do not change which command a
/// futex call is; and the command is taken from the low seven bits alone.
pub proof fn law_futex_options_ignored(op: u32)
    ensures
        futex_cmd_of((op | FUTEX_PRIVATE) & 0x7f) == futex_cmd_of(op & 0x7f),
        futex_cmd_of((op | FUTEX_CLOCK_REALTIME) & 0x7f) == futex_cmd_of(op & 0x7f),
        op < 0x80 ==> futex_cmd_of(op & 0x7f) == futex_cmd_of(op),
        op & 0x7f > 12 ==> futex_cmd_of(op & 0x7f) == FutexCmd::Invalid,
{
    assert((op | 128u32) & 0x7f == op & 0x7f) by (bit_vector);
    assert((op | 256u32) & 0x7f == op & 0x7f) by (bit_vector);
    assert(op < 0x80 ==> op & 0x7f == op) by (bit_vector);
}

/// A futex word is addressed by a non-null address on a four-byte boundary:
/// any other address is refused, and every such address is accepted.
pub proof fn law_futex_address(addr: usize)
    ensures
        addr == 0 ==> !futex_addr_ok(addr),
        addr % 4 != 0 ==> !futex_addr_ok(addr),
        forall|k: usize| 0 < k && k * 4 <= usize::MAX ==> #[trigger] futex_addr_ok((k * 4) as usize),
{
}

} // verus!
