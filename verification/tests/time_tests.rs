use gcore::clock::{
    sleep_wake, sys_clock_gettime, sys_clock_nanosleep, sys_clock_nanosleep_wake, sys_get_time,
    sys_gettimeofday, sys_nanosleep, sys_nanosleep_wake, timespec_now, ClockReading, SleepStart,
};
use gcore::errno::{EINTR, EINVAL, SUCCESS};
use gcore::time::{TimeSpec, TimeVal};

fn ts(s: usize, n: usize) -> TimeSpec {
    TimeSpec { tv_sec: s, tv_nsec: n }
}

/// 10.25 s after boot; the real-time clock reads 1_700_000_000.
fn reading() -> ClockReading {
    ClockReading { boot_ns: 10_250_000_000, unix_sec: 1_700_000_000 }
}

#[test]
fn timespec_arithmetic() {
    assert_eq!(TimeSpec::from_ns(3_000_000_007), ts(3, 7));
    assert_eq!(ts(1, 900_000_000).add(ts(2, 200_000_000)), ts(4, 100_000_000));
    assert_eq!(ts(0, 0).add(ts(0, 2_500_000_000)), ts(2, 500_000_000));
    assert_eq!(ts(4, 100_000_000).sub(ts(1, 900_000_000)), ts(2, 200_000_000));
    assert_eq!(ts(1, 0).sub(ts(2, 0)), ts(0, 0));
    assert!(ts(1, 5).le(&ts(1, 5)));
    assert!(!ts(2, 0).le(&ts(1, 999_999_999)));
    assert_eq!(TimeSpec::new(), ts(0, 0));
}

#[test]
fn clock_gettime_per_clock() {
    let c = reading();
    assert_eq!(sys_clock_gettime(0, c), ts(1_700_000_000, 250_000_000));
    assert_eq!(sys_clock_gettime(5, c), ts(1_700_000_000, 0));
    assert_eq!(sys_clock_gettime(1, c), ts(10, 250_000_000));
    assert_eq!(sys_clock_gettime(7, c), ts(10, 250_000_000));
    assert_eq!(timespec_now(c), ts(10, 250_000_000));
}

#[test]
fn gettimeofday_splits_microseconds() {
    assert_eq!(sys_gettimeofday(2_500_000, 100), TimeVal { tv_sec: 102, tv_usec: 500_000 });
    assert_eq!(sys_get_time(1234), 1234);
}

#[test]
fn nanosleep_end_and_wake() {
    assert_eq!(sys_nanosleep(None, reading()), SleepStart::Done(EINVAL));
    let end = match sys_nanosleep(Some(ts(1, 800_000_000)), reading()) {
        SleepStart::Sleep(e) => e,
        other => panic!("unexpected {:?}", other),
    };
    assert_eq!(end, ts(12, 50_000_000));
    let later = ClockReading { boot_ns: 12_050_000_000, unix_sec: 0 };
    assert_eq!(sys_nanosleep_wake(end, later, false), (SUCCESS, ts(0, 0)));
    let early = ClockReading { boot_ns: 11_000_000_000, unix_sec: 0 };
    assert_eq!(sys_nanosleep_wake(end, early, true), (EINTR, ts(1, 50_000_000)));
}

#[test]
fn clock_nanosleep_relative() {
    let c = reading();
    assert_eq!(sys_clock_nanosleep(1, 0, None, c), SleepStart::Done(EINVAL));
    assert_eq!(sys_clock_nanosleep(1, 0, Some(ts(0, 1_000_000_000)), c), SleepStart::Done(EINVAL));
    assert_eq!(sys_clock_nanosleep(1, 0, Some(ts(0, 0)), c), SleepStart::Done(SUCCESS));
    assert_eq!(sys_clock_nanosleep(1, 0, Some(ts(2, 0)), c), SleepStart::Sleep(ts(12, 250_000_000)));
}

#[test]
fn clock_nanosleep_absolute() {
    let c = reading();
    // Monotonic: the request is a boot time.
    assert_eq!(sys_clock_nanosleep(1, 1, Some(ts(10, 0)), c), SleepStart::Done(SUCCESS));
    assert_eq!(sys_clock_nanosleep(1, 1, Some(ts(20, 0)), c), SleepStart::Sleep(ts(20, 0)));
    // Real time: the request is a Unix time, 3 s from now.
    assert_eq!(
        sys_clock_nanosleep(0, 1, Some(ts(1_700_000_003, 250_000_000)), c),
        SleepStart::Sleep(ts(13, 250_000_000))
    );
    assert_eq!(sys_clock_nanosleep(5, 1, Some(ts(1_600_000_000, 0)), c), SleepStart::Done(SUCCESS));
}

#[test]
fn interrupted_sleep_reports_remaining_time() {
    let start = reading();
    let end = match sys_clock_nanosleep(1, 0, Some(ts(3, 0)), start) {
        SleepStart::Sleep(e) => e,
        other => panic!("unexpected {:?}", other),
    };
    let now = ClockReading { boot_ns: 11_000_000_000, unix_sec: 0 };
    let (ret, rem) = sys_clock_nanosleep_wake(end, now, true);
    assert_eq!(ret, EINTR);
    // 0.75 s slept, 2.25 s left.
    assert_eq!(rem, ts(2, 250_000_000));
    let past = ClockReading { boot_ns: 20_000_000_000, unix_sec: 0 };
    assert_eq!(sleep_wake(end, past, true), (EINTR, ts(0, 0)));
}

#[test]
fn nanosleep_matches_relative_realtime_clock_nanosleep() {
    let c = reading();
    for q in [ts(0, 1), ts(1, 800_000_000), ts(3, 0)] {
        assert_eq!(sys_nanosleep(Some(q), c), sys_clock_nanosleep(0, 0, Some(q), c));
    }
    assert_eq!(sys_nanosleep(None, c), sys_clock_nanosleep(0, 0, None, c));
    for q in [ts(0, 0), ts(0, 1_000_000_000)] {
        assert_eq!(sys_nanosleep(Some(q), c), sys_clock_nanosleep(0, 0, Some(q), c));
    }
    assert_eq!(sys_nanosleep(Some(ts(0, 0)), c), SleepStart::Done(SUCCESS));
    assert_eq!(sys_nanosleep(Some(ts(0, 1_000_000_000)), c), SleepStart::Done(EINVAL));
    // A relative sleep longer than a word of nanoseconds is accepted.
    let long = ts(usize::MAX / 2, 0);
    assert_eq!(sys_clock_nanosleep(1, 0, Some(long), c), SleepStart::Sleep(ts(usize::MAX / 2 + 10, 250_000_000)));
}
