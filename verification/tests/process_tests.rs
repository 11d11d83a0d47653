use gcore::errno::{EFAULT, EINVAL, ESRCH, SUCCESS};
use gcore::limits::{sys_prlimit, RLimit, Resource};
use gcore::process::{
    sys_brk, sys_exit, sys_getpgid, sys_getpid, sys_getppid, sys_gettid, sys_get_robust_list,
    sys_kill, sys_sbrk, sys_set_robust_list, sys_set_tid_address, sys_setitimer, sys_setpgid,
    sys_setsid, sys_tgkill, sys_tkill,
};
use gcore::signal::Signals;
use gcore::sigframe::{sys_sigreturn, SigFrameLayout, TrapContext};
use gcore::uspace::UserSpace;
use gcore::task::{ITimerVal, Task, TaskManager, TaskStatus};
use gcore::time::TimeVal;
use gcore::wait::{sys_wait4, sys_waitid, WaitAction};

fn timer(sec: usize) -> ITimerVal {
    ITimerVal {
        it_interval: TimeVal { tv_sec: 0, tv_usec: 0 },
        it_value: TimeVal { tv_sec: sec, tv_usec: 0 },
    }
}

fn task(pid: usize, tgid: usize, parent: Option<usize>, status: TaskStatus) -> Task {
    Task {
        pid,
        tgid,
        pgid: tgid,
        parent,
        status,
        sigpending: Signals { bits: 0 },
        sigmask: Signals { bits: 0 },
        exit_code: 0,
        clear_child_tid: 0,
        robust_head: 0,
        robust_len: 24,
        heap_bottom: 0x1000,
        heap_pt: 0x1000,
        timer_real: timer(0),
        timer_virtual: timer(0),
        timer_prof: timer(0),
        fd_soft_limit: 64,
        fd_hard_limit: 128,
        utime_ticks: 7,
        stime_ticks: 3,
    }
}

/// Task 1 runs; task 2 is its child sleeping interruptibly; task 3 is a
/// second thread of group 2; task 4 is an unrelated process.
fn manager() -> TaskManager {
    TaskManager {
        tasks: vec![
            task(1, 1, Some(0), TaskStatus::Running),
            task(2, 2, Some(1), TaskStatus::Interruptible),
            task(3, 2, Some(1), TaskStatus::Ready),
            task(4, 4, None, TaskStatus::Ready),
        ],
        current: 0,
        user_stack_size: 0x10000,
        task_limit: 128,
        user_heap_size: 0x10000,
    }
}

#[test]
fn kill_wakes_interruptible_target() {
    let mut tm = manager();
    assert_eq!(sys_kill(&mut tm, 2, 10), SUCCESS);
    assert_eq!(tm.tasks[1].sigpending.bits, 1 << 9);
    assert_eq!(tm.tasks[1].status, TaskStatus::Ready);
    assert_eq!(tm.tasks[2].sigpending.bits, 0);
}

#[test]
fn kill_rejects_bad_signal_and_unknown_pid() {
    let mut tm = manager();
    assert_eq!(sys_kill(&mut tm, 2, 65), EINVAL);
    assert_eq!(sys_kill(&mut tm, 9, 1), ESRCH);
    assert_eq!(sys_kill(&mut tm, 0, 1), SUCCESS);
    assert_eq!(tm.tasks[1].sigpending.bits, 0);
}

#[test]
fn kill_with_signal_zero_sends_nothing() {
    let mut tm = manager();
    assert_eq!(sys_kill(&mut tm, 2, 0), SUCCESS);
    assert_eq!(tm.tasks[1].status, TaskStatus::Interruptible);
    assert_eq!(tm.tasks[1].sigpending.bits, 0);
}

#[test]
fn kill_skips_zombies() {
    let mut tm = manager();
    tm.tasks[3].status = TaskStatus::Zombie;
    assert_eq!(sys_kill(&mut tm, 4, 9), ESRCH);
}

#[test]
fn tkill_targets_thread() {
    let mut tm = manager();
    assert_eq!(sys_tkill(&mut tm, 3, 2), SUCCESS);
    assert_eq!(tm.tasks[2].sigpending.bits, 1 << 1);
    assert_eq!(tm.tasks[1].sigpending.bits, 0);
    assert_eq!(sys_tkill(&mut tm, 0, 2), EINVAL);
    assert_eq!(sys_tkill(&mut tm, 99, 2), ESRCH);
    assert_eq!(sys_tkill(&mut tm, 3, 100), EINVAL);
}

#[test]
fn tgkill_needs_matching_thread() {
    let mut tm = manager();
    // Group 2's first live task is thread 2; naming thread 3 sends nothing.
    assert_eq!(sys_tgkill(&mut tm, 2, 3, 15), SUCCESS);
    assert_eq!(tm.tasks[1].sigpending.bits, 0);
    assert_eq!(tm.tasks[2].sigpending.bits, 0);
    assert_eq!(sys_tgkill(&mut tm, 2, 2, 15), SUCCESS);
    assert_eq!(tm.tasks[1].sigpending.bits, 1 << 14);
    assert_eq!(sys_tgkill(&mut tm, 7, 7, 15), ESRCH);
    assert_eq!(sys_tgkill(&mut tm, 2, 2, 99), EINVAL);
}

#[test]
fn ids_of_the_caller() {
    let mut tm = manager();
    tm.current = 2;
    assert_eq!(sys_getpid(&tm), 2);
    assert_eq!(sys_gettid(&tm), 3);
    assert_eq!(sys_getppid(&tm), 1);
    tm.current = 0;
    // Parent 0 is not in the table.
    assert_eq!(sys_getppid(&tm), 1);
    tm.current = 3;
    assert_eq!(sys_getppid(&tm), 1);
}

#[test]
fn setpgid_then_getpgid() {
    let mut tm = manager();
    assert_eq!(sys_setpgid(&mut tm, 2, 42), SUCCESS);
    assert_eq!(sys_getpgid(&tm, 2), 42);
    assert_eq!(sys_setpgid(&mut tm, 8, 42), ESRCH);
    assert_eq!(sys_getpgid(&tm, 8), ESRCH);
}

#[test]
fn setsid_detaches_from_parent() {
    let mut tm = manager();
    tm.current = 1;
    assert_eq!(sys_setsid(&mut tm), SUCCESS);
    assert_eq!(tm.tasks[1].parent, None);
    assert_eq!(sys_getppid(&tm), 1);
}

#[test]
fn tid_address_and_robust_list() {
    let mut tm = manager();
    assert_eq!(sys_set_tid_address(&mut tm, 0xdead0), 1);
    assert_eq!(tm.tasks[0].clear_child_tid, 0xdead0);
    assert_eq!(sys_set_robust_list(&mut tm, 0x5000, 16), EINVAL);
    assert_eq!(sys_set_robust_list(&mut tm, 0x5000, 24), SUCCESS);
    assert_eq!(sys_get_robust_list(&tm, 0, true), (SUCCESS, Some((0x5000, 24))));
    assert_eq!(sys_get_robust_list(&tm, 1, true), (SUCCESS, Some((0x5000, 24))));
    assert_eq!(sys_get_robust_list(&tm, 4, false), (EFAULT, Some((0, 24))));
    assert_eq!(sys_get_robust_list(&tm, 77, true), (ESRCH, None));
}

#[test]
fn exit_then_wait_reaps_child() {
    let mut tm = manager();
    tm.current = 1;
    sys_exit(&mut tm, 0x1_2a);
    assert_eq!(tm.tasks[1].status, TaskStatus::Zombie);
    assert_eq!(tm.tasks[1].exit_code, 0x2a00);
    tm.current = 0;
    let r = sys_wait4(&mut tm, 2, 0);
    assert_eq!(r, WaitAction::Return { ret: 2, status: Some(0x2a00) });
    assert_eq!(tm.tasks.len(), 3);
    assert_eq!(tm.tasks[0].pid, 1);
}

#[test]
fn wait_without_children_is_echild() {
    let mut tm = manager();
    tm.current = 3;
    assert_eq!(sys_wait4(&mut tm, -1, 0), WaitAction::Return { ret: -1, status: None });
}

#[test]
fn wait_reports_running_children() {
    let mut tm = manager();
    assert_eq!(sys_wait4(&mut tm, -1, 1), WaitAction::Return { ret: -2, status: None });
    assert_eq!(sys_wait4(&mut tm, -1, 0), WaitAction::Return { ret: -2, status: None });
    assert_eq!(tm.tasks.len(), 4);
}

#[test]
fn wait_releases_exited_threads_first() {
    let mut tm = manager();
    // Thread 3 (not a leader) has exited: it is released and the wait goes on.
    tm.tasks[2].status = TaskStatus::Zombie;
    assert_eq!(sys_wait4(&mut tm, -1, 1), WaitAction::Return { ret: -2, status: None });
    assert_eq!(tm.tasks.len(), 3);
    assert_eq!(tm.tasks[2].pid, 4);
}

#[test]
fn prlimit_reads_and_sets_limits() {
    let mut tm = manager();
    let r = sys_prlimit(&mut tm, 0, 3, false, true, None);
    assert_eq!(r.ret, SUCCESS);
    assert_eq!(r.old, Some(RLimit { rlim_cur: 0x10000, rlim_max: 0x10000 }));
    let r = sys_prlimit(&mut tm, 0, 6, false, true, None);
    assert_eq!(r.old, Some(RLimit { rlim_cur: 128, rlim_max: 128 }));
    let r = sys_prlimit(&mut tm, 0, 7, false, true, Some(Some(RLimit { rlim_cur: 10, rlim_max: 20 })));
    assert_eq!(r.ret, SUCCESS);
    assert_eq!(r.old, Some(RLimit { rlim_cur: 64, rlim_max: 128 }));
    assert_eq!((tm.tasks[0].fd_soft_limit, tm.tasks[0].fd_hard_limit), (10, 20));
    assert_eq!(sys_prlimit(&mut tm, 1, 7, true, true, None).ret, EINVAL);
    assert_eq!(sys_prlimit(&mut tm, 0, 0, false, true, None).ret, EINVAL);
    assert_eq!(sys_prlimit(&mut tm, 0, 7, false, false, None).ret, EFAULT);
    assert_eq!(sys_prlimit(&mut tm, 0, 7, true, true, Some(None)).ret, EFAULT);
    assert_eq!(sys_prlimit(&mut tm, 0, 0, true, true, Some(Some(RLimit { rlim_cur: 1, rlim_max: 1 }))).ret, EINVAL);
    assert_eq!(Resource::from_primitive(99), Resource::ILLEAGAL);
    // An unserved resource is refused even with both addresses null.
    assert_eq!(sys_prlimit(&mut tm, 0, 1, true, true, None).ret, EINVAL);
    assert_eq!(sys_prlimit(&mut tm, 0, 6, true, true, Some(Some(RLimit { rlim_cur: 1, rlim_max: 1 }))).ret, EINVAL);
}

#[test]
fn setitimer_swaps_timer() {
    let mut tm = manager();
    assert_eq!(sys_setitimer(&mut tm, 1, Some(timer(5))), (SUCCESS, Some(timer(0))));
    assert_eq!(sys_setitimer(&mut tm, 1, None), (SUCCESS, Some(timer(5))));
    assert_eq!(sys_setitimer(&mut tm, 3, Some(timer(5))), (EINVAL, None));
}

#[test]
fn brk_moves_heap_within_limits() {
    let mut tm = manager();
    assert_eq!(sys_brk(&mut tm, 0), 0x1000);
    assert_eq!(sys_brk(&mut tm, 0x3000), 0x3000);
    assert_eq!(sys_brk(&mut tm, 0x20000), 0x3000);
    assert_eq!(sys_sbrk(&mut tm, -0x1000), 0x2000);
    assert_eq!(sys_sbrk(&mut tm, -0x5000), 0x2000);
    assert_eq!(sys_sbrk(&mut tm, 0x1000), 0x3000);
    assert_eq!(sys_brk(&mut tm, 0x800), 0x3000);
}

#[test]
fn kill_to_all_or_a_group_is_accepted() {
    let mut tm = manager();
    assert_eq!(sys_kill(&mut tm, usize::MAX, 10), SUCCESS);
    assert_eq!(sys_kill(&mut tm, (-7isize) as usize, 10), SUCCESS);
    assert_eq!(sys_kill(&mut tm, usize::MAX, 65), EINVAL);
    assert!(tm.tasks.iter().all(|t| t.sigpending.bits == 0));
}

#[test]
fn tkill_refuses_non_positive_thread_ids() {
    let mut tm = manager();
    assert_eq!(sys_tkill(&mut tm, 0, 10), EINVAL);
    assert_eq!(sys_tkill(&mut tm, usize::MAX, 10), EINVAL);
    assert_eq!(sys_tkill(&mut tm, (-3isize) as usize, 10), EINVAL);
    assert_eq!(sys_tkill(&mut tm, 77, 10), ESRCH);
}

#[test]
fn wait_refuses_unknown_options_and_waitid_follows() {
    let mut tm = manager();
    assert_eq!(sys_wait4(&mut tm, -1, 0x40), WaitAction::Return { ret: EINVAL, status: None });
    assert_eq!(tm.tasks.len(), 4);
    assert_eq!(sys_waitid(&mut tm, 2, 1), WaitAction::Return { ret: -2, status: None });
    assert_eq!(sys_waitid(&mut tm, 9, 1), WaitAction::Return { ret: -1, status: None });
}

fn put_u64(mem: &mut [u8], at: usize, v: u64) {
    mem[at..at + 8].copy_from_slice(&v.to_le_bytes());
}

#[test]
fn sigreturn_restores_mask_and_registers() {
    let l = SigFrameLayout { siginfo_size: 128, sigstack_size: 24, padding: 8, sp_at: 16, a0_at: 80 };
    let mut mem = vec![0u8; 1300];
    // The frame: siginfo at 1000, ucontext at (1000 + 128 + 7) & !7 = 1128,
    // signal mask at 1128 + 16 + 24 = 1168, machine context at 1184.
    put_u64(&mut mem, 1168, 0x5);
    for k in 0..96 {
        mem[1184 + k] = k as u8;
    }
    put_u64(&mut mem, 1184 + 80, 42);
    let space = UserSpace { mem };
    let mut old_mc = vec![0u8; 96];
    put_u64(&mut old_mc, 16, 1000);
    let mut trap = TrapContext { mcontext: old_mc };
    let mut tm = manager();
    assert_eq!(sys_sigreturn(&mut tm, &space, &mut trap, l), 42);
    assert_eq!(tm.tasks[0].sigmask.bits, 0x5);
    assert_eq!(tm.tasks[1].sigmask.bits, 0);
    assert_eq!(&trap.mcontext[..], &space.mem[1184..1280]);
}
