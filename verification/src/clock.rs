//! Clock system calls: reading the clocks and sleeping.
use vstd::prelude::*;
use crate::errno::{SUCCESS, EINVAL, EINTR};
use crate::time::{TimeSpec, TimeVal, NSEC_PER_SEC, USEC_PER_SEC, ts_of_ns, lemma_ts_of_total};

verus! {

/// One reading of the machine's clocks.
#[derive(Clone, Copy, Debug, PartialEq, Eq)]
pub struct ClockReading {
    /// Nanoseconds since boot.
    pub boot_ns: usize,
    /// Seconds since the Unix epoch, from the real-time clock.
    pub unix_sec: usize,
}

/// Flag of `clock_nanosleep`: the request is an absolute time.
pub const TIMER_ABSTIME: u32 = 0x01;

/// The time since boot as a normalized `TimeSpec`.
pub open spec fn boot_time(c: ClockReading) -> TimeSpec {
    TimeSpec { tv_sec: (c.boot_ns / NSEC_PER_SEC) as usize, tv_nsec: (c.boot_ns % NSEC_PER_SEC) as usize }
}

/// The real time in nanoseconds: whole Unix seconds plus the sub-second part
/// of the time since boot.
pub open spec fn unix_now_ns(c: ClockReading) -> int {
    c.unix_sec * NSEC_PER_SEC + c.boot_ns % NSEC_PER_SEC
}

/// The time since boot (`TimeSpec::now`).
pub fn timespec_now(c: ClockReading) -> (t: TimeSpec)
    ensures
        t == boot_time(c),
        t.normalized(),
        t.total_ns() == c.boot_ns,
{
    TimeSpec::from_ns(c.boot_ns)
}

/// The value `clock_gettime` stores for clock `clk_id`: real time (0) is the
/// Unix second with the sub-second part of the boot time, coarse real time (5)
/// the Unix second alone, and every other clock the time since boot.
pub fn sys_clock_gettime(clk_id: usize, c: ClockReading) -> (t: TimeSpec)
    ensures
        clk_id == 0 ==> t == (TimeSpec {
            tv_sec: c.unix_sec,
            tv_nsec: (c.boot_ns % NSEC_PER_SEC) as usize,
        }),
        clk_id == 5 ==> t == (TimeSpec { tv_sec: c.unix_sec, tv_nsec: 0 }),
        clk_id != 0 && clk_id != 5 ==> t == boot_time(c),
{
    match clk_id {
        0 => TimeSpec { tv_sec: c.unix_sec, tv_nsec: c.boot_ns % NSEC_PER_SEC },
        5 => TimeSpec { tv_sec: c.unix_sec, tv_nsec: 0 },
        _ => timespec_now(c),
    }
}

/// The time of day: microseconds since boot plus the boot time's offset from
/// the epoch, split into seconds and microseconds.
pub fn sys_gettimeofday(uptime_us: usize, boot_offset_sec: usize) -> (tv: TimeVal)
    requires
        uptime_us + boot_offset_sec * USEC_PER_SEC <= usize::MAX,
    ensures
        tv.tv_usec < USEC_PER_SEC,
        tv.tv_sec * USEC_PER_SEC + tv.tv_usec == uptime_us + boot_offset_sec * USEC_PER_SEC,
{
    let unix_us = uptime_us + boot_offset_sec * USEC_PER_SEC;
    let tv = TimeVal { tv_sec: unix_us / USEC_PER_SEC, tv_usec: unix_us % USEC_PER_SEC };
    assert(tv.tv_sec * USEC_PER_SEC + tv.tv_usec == unix_us) by {
        vstd::arithmetic::div_mod::lemma_fundamental_div_mod(unix_us as int, USEC_PER_SEC as int);
    }
    tv
}

/// Milliseconds since boot, as the system call returns them.
pub fn sys_get_time(time_ms: usize) -> (r: isize)
    requires
        time_ms <= isize::MAX,
    ensures
        r == time_ms,
{
    time_ms as isize
}

/// How a sleep request begins.
#[derive(Clone, Copy, Debug, PartialEq, Eq)]
pub enum SleepStart {
    /// Return at once with this value.
    Done(isize),
    /// Block until the time since boot reaches `end`.
    Sleep(TimeSpec),
}

/// `nanosleep`: the relative `clock_nanosleep` on the real-time clock.
pub fn sys_nanosleep(req: Option<TimeSpec>, c: ClockReading) -> (r: SleepStart)
    requires
        req matches Some(q) ==> (q.normalized() ==> q.tv_sec + boot_time(c).tv_sec + 1 <= usize::MAX),
    ensures
        r == clock_nanosleep_start(0, 0, req, c),
{
    assert(0u32 & TIMER_ABSTIME == 0) by (bit_vector);
    sys_clock_nanosleep(0, 0, req, c)
}

/// What a woken sleeper returns, and the remaining time it reports: without a
/// pending signal it succeeds with no time left; with one it is interrupted
/// and reports the time from now to the end, or zero once the end has passed.
pub fn sleep_wake(end: TimeSpec, now: ClockReading, signal_pending: bool) -> (r: (isize, TimeSpec))
    requires
        end.normalized(),
    ensures
        r.1.normalized(),
        !signal_pending ==> r.0 == SUCCESS && r.1.total_ns() == 0,
        signal_pending ==> r.0 == EINTR && r.1.total_ns() == if end.total_ns() <= now.boot_ns {
            0
        } else {
            end.total_ns() - now.boot_ns
        },
{
    if !signal_pending {
        (SUCCESS, TimeSpec::new())
    } else {
        let n = timespec_now(now);
        (EINTR, end.sub(n))
    }
}

/// `nanosleep` after the sleeper is woken; without a pending signal the end
/// time must have passed.
pub fn sys_nanosleep_wake(end: TimeSpec, now: ClockReading, signal_pending: bool) -> (r: (
    isize,
    TimeSpec,
))
    requires
        end.normalized(),
        !signal_pending ==> end.total_ns() <= now.boot_ns,
    ensures
        r == sleep_wake_spec(end, now, signal_pending),
{
    sleep_wake(end, now, signal_pending)
}

/// The reply of a woken sleeper, as `sleep_wake` computes it.
pub open spec fn sleep_wake_spec(end: TimeSpec, now: ClockReading, signal_pending: bool) -> (
    isize,
    TimeSpec,
) {
    if !signal_pending {
        (SUCCESS, TimeSpec { tv_sec: 0, tv_nsec: 0 })
    } else {
        let rem = if end.total_ns() <= now.boot_ns {
            0
        } else {
            end.total_ns() - now.boot_ns
        };
        (EINTR, TimeSpec { tv_sec: (rem / (NSEC_PER_SEC as int)) as usize, tv_nsec: (rem % (NSEC_PER_SEC as int)) as usize })
    }
}

/// `clock_nanosleep` when woken: the reply of `sleep_wake`.
pub fn sys_clock_nanosleep_wake(end: TimeSpec, now: ClockReading, signal_pending: bool) -> (r: (
    isize,
    TimeSpec,
))
    requires
        end.normalized(),
    ensures
        r == sleep_wake_spec(end, now, signal_pending),
{
    sleep_wake(end, now, signal_pending)
}

/// How `clock_nanosleep` begins (see `sys_clock_nanosleep`).
pub open spec fn clock_nanosleep_start(clk_id: usize, flags: u32, rqtp: Option<TimeSpec>, c: ClockReading) -> SleepStart {
    match rqtp {
        None => SleepStart::Done(EINVAL),
        Some(q) => if q.tv_nsec >= NSEC_PER_SEC {
            SleepStart::Done(EINVAL)
        } else if flags & TIMER_ABSTIME != 0 {
            if clk_id == 0 || clk_id == 5 {
                if q.total_ns() <= unix_now_ns(c) {
                    SleepStart::Done(SUCCESS)
                } else {
                    SleepStart::Sleep(ts_of_ns(c.boot_ns + (q.total_ns() - unix_now_ns(c))))
                }
            } else if q.total_ns() <= c.boot_ns {
                SleepStart::Done(SUCCESS)
            } else {
                SleepStart::Sleep(q)
            }
        } else if q.tv_sec == 0 && q.tv_nsec == 0 {
            SleepStart::Done(SUCCESS)
        } else {
            SleepStart::Sleep(ts_of_ns(c.boot_ns + q.total_ns()))
        },
    }
}

/// `clock_nanosleep` as it starts. EINVAL without a request or when its
/// nanoseconds reach a second. An absolute request on a real-time clock (0, 5)
/// is a Unix time: one already passed returns at once, otherwise the sleep
/// ends that far after the time since boot. An absolute request on any other
/// clock is a time since boot: one already passed returns at once, otherwise
/// it is the end. A relative request of zero returns at once; otherwise the
/// sleep ends that long after the time since boot.
pub fn sys_clock_nanosleep(clk_id: usize, flags: u32, rqtp: Option<TimeSpec>, c: ClockReading) -> (r:
    SleepStart)
    requires
        rqtp matches Some(q) ==> (q.normalized() && flags & TIMER_ABSTIME != 0 && (clk_id == 0
            || clk_id == 5) ==> unix_now_ns(c) <= usize::MAX && q.total_ns() <= usize::MAX
            && q.tv_sec + boot_time(c).tv_sec + 1 <= usize::MAX),
        rqtp matches Some(q) ==> (q.normalized() && flags & TIMER_ABSTIME == 0 ==> q.tv_sec
            + boot_time(c).tv_sec + 1 <= usize::MAX),
    ensures
        r == clock_nanosleep_start(clk_id, flags, rqtp, c),
        match rqtp {
            None => r == SleepStart::Done(EINVAL),
            Some(q) => if q.tv_nsec >= NSEC_PER_SEC {
                r == SleepStart::Done(EINVAL)
            } else if flags & TIMER_ABSTIME != 0 {
                if clk_id == 0 || clk_id == 5 {
                    if q.total_ns() <= unix_now_ns(c) {
                        r == SleepStart::Done(SUCCESS)
                    } else {
                        r matches SleepStart::Sleep(end) && end.normalized() && end.total_ns()
                            == c.boot_ns + (q.total_ns() - unix_now_ns(c))
                    }
                } else {
                    if q.total_ns() <= c.boot_ns {
                        r == SleepStart::Done(SUCCESS)
                    } else {
                        r == SleepStart::Sleep(q)
                    }
                }
            } else {
                if q.tv_sec == 0 && q.tv_nsec == 0 {
                    r == SleepStart::Done(SUCCESS)
                } else {
                    r matches SleepStart::Sleep(end) && end.normalized() && end.total_ns()
                        == c.boot_ns + q.total_ns()
                }
            },
        },
{
    let rq = match rqtp {
        None => return SleepStart::Done(EINVAL),
        Some(q) => q,
    };
    if rq.tv_nsec >= NSEC_PER_SEC {
        return SleepStart::Done(EINVAL);
    }
    if flags & TIMER_ABSTIME != 0 {
        if clk_id == 0 || clk_id == 5 {
            let unix_now = c.unix_sec * NSEC_PER_SEC + c.boot_ns % NSEC_PER_SEC;
            let req_ns = rq.tv_sec * NSEC_PER_SEC + rq.tv_nsec;
            if req_ns <= unix_now {
                return SleepStart::Done(SUCCESS);
            }
            let remaining = TimeSpec::from_ns(req_ns - unix_now);
            let now = timespec_now(c);
            assert(remaining.tv_sec <= rq.tv_sec) by {
                vstd::arithmetic::div_mod::lemma_div_is_ordered(
                    (req_ns - unix_now) as int,
                    req_ns as int,
                    NSEC_PER_SEC as int,
                );
                vstd::arithmetic::div_mod::lemma_fundamental_div_mod(req_ns as int, NSEC_PER_SEC as int);
                assert(req_ns / NSEC_PER_SEC == rq.tv_sec) by {
                    vstd::arithmetic::div_mod::lemma_div_multiples_vanish_fancy(
                        rq.tv_sec as int,
                        rq.tv_nsec as int,
                        NSEC_PER_SEC as int,
                    );
                }
            }
            let end = now.add(remaining);
            proof {
                lemma_ts_of_total(end);
            }
            SleepStart::Sleep(end)
        } else {
            let now = timespec_now(c);
            if rq.le(&now) {
                return SleepStart::Done(SUCCESS);
            }
            SleepStart::Sleep(rq)
        }
    } else {
        if rq.tv_sec == 0 && rq.tv_nsec == 0 {
            return SleepStart::Done(SUCCESS);
        }
        let now = timespec_now(c);
        let end = now.add(rq);
        proof {
            lemma_ts_of_total(end);
        }
        SleepStart::Sleep(end)
    }
}


/// A relative sleep of `q` begun at `start` and interrupted at `now`, before
/// its end, reports the part of `q` not yet slept: what is left plus what
/// passed is the request.
pub proof fn law_interrupted_sleep_reports_rest(q: TimeSpec, start: ClockReading, now: ClockReading, end: TimeSpec)
    requires
        end.normalized(),
        end.total_ns() == start.boot_ns + q.total_ns(),
        start.boot_ns <= now.boot_ns,
        now.boot_ns < end.total_ns(),
    ensures
        sleep_wake_spec(end, now, true).0 == EINTR,
        sleep_wake_spec(end, now, true).1.total_ns() + (now.boot_ns - start.boot_ns) == q.total_ns(),
{
    let rem = end.total_ns() - now.boot_ns;
    vstd::arithmetic::div_mod::lemma_fundamental_div_mod(rem, NSEC_PER_SEC as int);
}

/// A sleep that ends without a signal reports no time left.
pub proof fn law_completed_sleep_reports_zero(end: TimeSpec, now: ClockReading)
    ensures
        sleep_wake_spec(end, now, false).0 == SUCCESS,
        sleep_wake_spec(end, now, false).1.total_ns() == 0,
{
}

} // verus!
