use gcore::errno::{EFAULT, EINVAL, ENOEXEC, ENOSYS, SUCCESS};
use gcore::exec::{
    clone_finish, exec_check, mmap_permission, sys_clone, sys_execve, sys_mmap, MmapRequest,
    CLONE_CHILD_CLEARTID, CLONE_CHILD_SETTID, CLONE_PARENT_SETTID,
};
use gcore::futex::{futex_wake_op, sys_futex, FutexAction, FutexCmd};
use gcore::info::{
    sys_getgroups, sys_getpriority, sys_getrusage, sys_sched_get_priority_max, sys_sched_get_priority_min,
    sys_sched_getaffinity, sys_sched_rr_get_interval, sys_syslog, sys_sysinfo, sys_times,
    sys_uname, Arch, SyslogAction, Times, LOG_BUF_LEN, LOG_LEN,
};
use gcore::heap::{fallback_frames, LargeAllocs};
use gcore::pci::{
    align_up, configure_bar, is_power_of_two, BarInfo, BarWrite, MemoryBarType, PciRangeAllocator,
};
use gcore::preload::{image_frames, mkdir_done, preload_plan, Image, PreloadStep};
use gcore::signal::Signals;
use gcore::smp::{
    current_task, hart_id, is_boot_hart, run_tasks_step, take_current_task, Processor,
    Processors, RunAction, TaskContext, MAX_HARTS,
};
use gcore::task::{ITimerVal, Task, TaskManager, TaskStatus};
use gcore::time::{TimeSpec, TimeVal};
use gcore::usr_call::sleep_elapsed;
use gcore::uspace::UserSpace;

fn idle_timer() -> ITimerVal {
    ITimerVal {
        it_interval: TimeVal { tv_sec: 0, tv_usec: 0 },
        it_value: TimeVal { tv_sec: 0, tv_usec: 0 },
    }
}

fn ready_task(pid: usize) -> Task {
    Task {
        pid,
        tgid: pid,
        pgid: pid,
        parent: None,
        status: TaskStatus::Ready,
        sigpending: Signals { bits: 0 },
        sigmask: Signals { bits: 0 },
        exit_code: 0,
        clear_child_tid: 0,
        robust_head: 0,
        robust_len: 24,
        heap_bottom: 0,
        heap_pt: 0,
        timer_real: idle_timer(),
        timer_virtual: idle_timer(),
        timer_prof: idle_timer(),
        fd_soft_limit: 64,
        fd_hard_limit: 64,
        utime_ticks: 11,
        stime_ticks: 4,
    }
}

fn two_tasks() -> TaskManager {
    TaskManager {
        tasks: vec![ready_task(1), ready_task(2)],
        current: 0,
        user_stack_size: 0x1000,
        task_limit: 8,
        user_heap_size: 0x1000,
    }
}

fn wake(uaddr: usize, op: u32, val: u32) -> FutexAction {
    sys_futex(uaddr, op, val, 0, 0, 0, Ok(()), Ok(None), Ok(0))
}

#[test]
fn futex_checks_the_address() {
    assert_eq!(wake(0, 1, 1), FutexAction::Return(EINVAL));
    assert_eq!(wake(6, 1, 1), FutexAction::Return(EINVAL));
    let r = sys_futex(8, 1, 1, 0, 0, 0, Err(EFAULT), Ok(None), Ok(0));
    assert_eq!(r, FutexAction::Return(EFAULT));
}

#[test]
fn futex_wait_and_wake() {
    assert_eq!(wake(8, 1 | 128, 5), FutexAction::Wake { uaddr: 8, nr: 5 });
    let t = TimeSpec { tv_sec: 1, tv_nsec: 500 };
    let r = sys_futex(8, 0, 3, 0x100, 0, 0, Ok(()), Ok(Some(t)), Ok(0));
    assert_eq!(r, FutexAction::Wait { uaddr: 8, val: 3, timeout: Some(t) });
    let r = sys_futex(8, 0, 3, 0x100, 0, 0, Ok(()), Err(EFAULT), Ok(0));
    assert_eq!(r, FutexAction::Return(EFAULT));
    let r = sys_futex(8, 9, 3, 0, 0, 0, Ok(()), Ok(None), Ok(0));
    assert_eq!(r, FutexAction::Return(EINVAL));
    let r = sys_futex(8, 9, 3, 0, 0, 0xff, Ok(()), Ok(None), Ok(0));
    assert_eq!(r, FutexAction::Wait { uaddr: 8, val: 3, timeout: None });
}

#[test]
fn futex_requeue() {
    let r = sys_futex(8, 3, 1, 7, 16, 0, Ok(()), Ok(None), Ok(0));
    assert_eq!(r, FutexAction::Requeue { uaddr: 8, uaddr2: 16, nr_wake: 1, nr_requeue: 7 });
    let r = sys_futex(8, 3, 1, 7, 18, 0, Ok(()), Ok(None), Ok(0));
    assert_eq!(r, FutexAction::Return(EINVAL));
    let r = sys_futex(8, 3, 1, 7, 16, 0, Ok(()), Ok(None), Err(EFAULT));
    assert_eq!(r, FutexAction::Return(EFAULT));
}

#[test]
fn futex_wake_op_decodes_operation_and_comparison() {
    // add 5, compare "greater than" against 5
    let val3 = (1u32 << 28) | (4 << 24) | 5;
    assert_eq!(futex_wake_op(val3, 10), Some((15, true)));
    assert_eq!(futex_wake_op(val3, 2), Some((7, false)));
    assert_eq!(futex_wake_op(val3, u32::MAX), Some((4, true)));
    // set, equal
    assert_eq!(futex_wake_op(9, 9), Some((9, true)));
    // or, and-not, xor
    assert_eq!(futex_wake_op((2 << 28) | 0x0f0, 0x00f), Some((0x0ff, false)));
    assert_eq!(futex_wake_op((3 << 28) | 0x0f0, 0x0ff), Some((0x00f, false)));
    assert_eq!(futex_wake_op((4 << 28) | (1 << 24) | 0x0f0, 0x0f0), Some((0, false)));
    // unknown comparison holds
    assert_eq!(futex_wake_op((9 << 24) | 1, 0), Some((1, true)));
    assert_eq!(futex_wake_op(7 << 28, 0), None);
    let r = sys_futex(8, 5, 2, 0, 16, val3, Ok(()), Ok(None), Ok(10));
    assert_eq!(
        r,
        FutexAction::WakeOp { uaddr: 8, uaddr2: 16, nr: 2, newval: 15, cond: true }
    );
    let r = sys_futex(8, 5, 2, 0, 16, 7 << 28, Ok(()), Ok(None), Ok(10));
    assert_eq!(r, FutexAction::Return(EINVAL));
}

#[test]
fn futex_unknown_and_unserved_commands() {
    assert_eq!(wake(8, 2, 0), FutexAction::Return(ENOSYS));
    assert_eq!(wake(8, 6, 0), FutexAction::Return(ENOSYS));
    assert_eq!(wake(8, 13, 0), FutexAction::Return(EINVAL));
    assert_eq!(FutexCmd::from_primitive(5), FutexCmd::WakeOp);
    assert_eq!(FutexCmd::from_primitive(12), FutexCmd::CmpRequeuePi);
    assert_eq!(FutexCmd::from_primitive(99), FutexCmd::Invalid);
}

#[test]
fn clone_plan_from_flags() {
    let flags = CLONE_CHILD_SETTID | CLONE_CHILD_CLEARTID | CLONE_PARENT_SETTID | 17;
    let p = sys_clone(flags, 0x1000);
    assert_eq!(p.flags, CLONE_CHILD_SETTID | CLONE_CHILD_CLEARTID | CLONE_PARENT_SETTID);
    assert_eq!(p.exit_signal, Signals { bits: 1 << 16 });
    assert!(p.set_parent_tid);
    assert!(p.set_child_tid);
    assert_eq!(p.clear_child_tid, Some(0x1000));
    let p = sys_clone(CLONE_CHILD_SETTID | CLONE_CHILD_CLEARTID, 0);
    assert!(!p.set_child_tid);
    assert!(!p.set_parent_tid);
    assert_eq!(p.clear_child_tid, None);
    assert_eq!(p.exit_signal, Signals { bits: 0 });
    let p = sys_clone(0x41, 0);
    assert_eq!(p.exit_signal, Signals { bits: 0 });
}

#[test]
fn clone_finish_stores_the_child_id() {
    let flags = CLONE_CHILD_SETTID | CLONE_CHILD_CLEARTID | CLONE_PARENT_SETTID | 17;
    let p = sys_clone(flags, 0x10);
    let mut parent = UserSpace { mem: vec![0u8; 32] };
    let mut child_mem = UserSpace { mem: vec![0u8; 32] };
    let mut child = ready_task(5);
    assert_eq!(clone_finish(&p, 0x0102_0304, 4, 0x10, &mut parent, &mut child_mem, &mut child), 0x0102_0304);
    assert_eq!(&parent.mem[4..8], &[4u8, 3, 2, 1]);
    assert_eq!(&child_mem.mem[0x10..0x14], &[4u8, 3, 2, 1]);
    assert_eq!(child.clear_child_tid, 0x10);
    // The parent's word is not mapped: EFAULT, nothing stored.
    let mut parent = UserSpace { mem: vec![0u8; 6] };
    let mut child_mem = UserSpace { mem: vec![0u8; 32] };
    let mut child = ready_task(5);
    assert_eq!(clone_finish(&p, 9, 4, 0x10, &mut parent, &mut child_mem, &mut child), EFAULT);
    assert_eq!(parent.mem, vec![0u8; 6]);
    assert_eq!(child_mem.mem, vec![0u8; 32]);
    assert_eq!(child.clear_child_tid, 0);
    // The child's word is not mapped: skipped.
    let mut parent = UserSpace { mem: vec![0u8; 32] };
    let mut child_mem = UserSpace { mem: vec![0u8; 8] };
    let mut child = ready_task(5);
    assert_eq!(clone_finish(&p, 9, 0, 0x10, &mut parent, &mut child_mem, &mut child), 9);
    assert_eq!(&parent.mem[0..4], &[9u8, 0, 0, 0]);
    assert_eq!(child_mem.mem, vec![0u8; 8]);
}

#[test]
fn mmap_turns_protection_into_permission() {
    assert_eq!(mmap_permission(0), 0x10);
    assert_eq!(mmap_permission(1), 0x12);
    assert_eq!(mmap_permission(3), 0x16);
    assert_eq!(mmap_permission(7), 0x1e);
    assert_eq!(
        sys_mmap(0x1000, 0x2000, 5, 0x22, 3, 0x40),
        Ok(MmapRequest { start: 0x1000, len: 0x2000, perm: 0x1a, flags: 0x22, fd: 3, offset: 0x40 })
    );
    assert_eq!(sys_mmap(0x1000, 0x2000, 0x10, 0x22, 3, 0x40), Err(EINVAL));
}

#[test]
fn exec_check_wants_elf_magic() {
    let elf = [0x7f, b'E', b'L', b'F'];
    assert_eq!(exec_check(4096, &elf), Ok(()));
    assert_eq!(exec_check(3, &elf), Err(ENOEXEC));
    assert_eq!(exec_check(4096, b"#!/b"), Err(ENOEXEC));
}

#[test]
fn execve_reads_path_and_arguments() {
    let mut mem = vec![0u8; 128];
    mem[0..8].copy_from_slice(b"/bin/sh\0");
    mem[16..24].copy_from_slice(&0x40u64.to_le_bytes());
    mem[24..32].copy_from_slice(&0x48u64.to_le_bytes());
    mem[0x40..0x43].copy_from_slice(b"sh\0");
    mem[0x48..0x4b].copy_from_slice(b"-c\0");
    mem[0x50..0x58].copy_from_slice(&0x44u64.to_le_bytes());
    mem[0x44..0x46].copy_from_slice(b"A\0");
    mem[127] = b'x';
    let space = gcore::uspace::UserSpace { mem };
    match sys_execve(&space, 0, 16, 0x50) {
        Ok(a) => {
            assert_eq!(a.path, b"/bin/sh".to_vec());
            assert_eq!(a.argv, vec![b"sh".to_vec(), b"-c".to_vec()]);
            assert_eq!(a.envp, vec![b"A".to_vec()]);
        }
        Err(e) => panic!("execve failed with {}", e),
    }
    match sys_execve(&space, 0, 0, 0) {
        Ok(a) => {
            assert!(a.argv.is_empty());
            assert!(a.envp.is_empty());
        }
        Err(e) => panic!("execve failed with {}", e),
    }
    match sys_execve(&space, 127, 16, 0) {
        Ok(_) => panic!("unterminated path accepted"),
        Err(e) => assert_eq!(e, EFAULT),
    }
    match sys_execve(&space, 0, 120, 0) {
        Ok(_) => panic!("unterminated argument array accepted"),
        Err(e) => assert_eq!(e, EFAULT),
    }
}

#[test]
fn pci_blocks_are_aligned_and_disjoint() {
    assert!(is_power_of_two(0x1000));
    assert!(!is_power_of_two(0));
    assert!(!is_power_of_two(12));
    assert_eq!(align_up(5, 4), 8);
    assert_eq!(align_up(8, 4), 8);
    let mut a = PciRangeAllocator::new(0x4000_0000, 0x1000_0000);
    assert_eq!(a.alloc_pci_mem(0x1000), Some(0x4000_0000));
    assert_eq!(a.alloc_pci_mem(0x10000), Some(0x4001_0000));
    assert_eq!(a.current, 0x4002_0000);
    assert_eq!(a.alloc_pci_mem(3), None);
    assert_eq!(a.alloc_pci_mem(0x2000_0000), None);
    assert_eq!(a.current, 0x4002_0000);
    assert_eq!(a.alloc_pci_mem(8), Some(0x4002_0000));
    assert_eq!(a.current, 0x4002_0008);
}

#[test]
fn harts_and_processors() {
    assert_eq!(hart_id(3), 3);
    assert_eq!(hart_id(99), 0);
    assert!(is_boot_hart(0));
    assert!(is_boot_hart(MAX_HARTS));
    assert!(!is_boot_hart(1));
    let c = TaskContext::zero_init();
    assert_eq!((c.ra, c.sp, c.s), (0, 0, [0; 12]));
    let mut p = Processor::new();
    p.current = Some(4);
    assert_eq!(p.current(), Some(4));
    assert_eq!(p.take_current(), Some(4));
    assert_eq!(p.current(), None);
}

#[test]
fn scheduling_loop_steps() {
    let mut ps = Processors::new();
    assert_eq!(ps.harts.len(), MAX_HARTS);
    let mut tm = two_tasks();
    assert_eq!(run_tasks_step(&mut ps, &mut tm, 2, Some(1)), RunAction::Switch(1));
    assert_eq!(tm.tasks[1].status, TaskStatus::Running);
    assert_eq!(tm.tasks[0].status, TaskStatus::Ready);
    assert_eq!(current_task(&ps, 2), Some(1));
    assert_eq!(current_task(&ps, 0), None);
    assert_eq!(take_current_task(&mut ps, 2), Some(1));
    assert_eq!(current_task(&ps, 2), None);
    assert_eq!(run_tasks_step(&mut ps, &mut tm, 0, None), RunAction::WakeExpired);
    assert_eq!(run_tasks_step(&mut ps, &mut tm, 3, None), RunAction::WakeExpiredAndWait);
}

#[test]
fn syslog_reads_the_log() {
    let r = sys_syslog(2, 3);
    assert_eq!(r.ret, 3);
    assert_eq!(r.text, Some(b"<5>".to_vec()));
    let r = sys_syslog(4, 9);
    assert_eq!(r.text, Some(b"<5>[    0".to_vec()));
    let r = sys_syslog(3, 4);
    assert_eq!(r.ret, 4);
    assert_eq!(r.text, Some(b"2022".to_vec()));
    let r = sys_syslog(3, 10_000);
    assert_eq!(r.ret, LOG_LEN as isize);
    assert_eq!(r.text.map(|t| t.len()), Some(LOG_LEN));
    assert_eq!(sys_syslog(9, 10).ret, 0);
    assert_eq!(sys_syslog(10, 10).ret, LOG_BUF_LEN as isize);
    let r = sys_syslog(11, 10);
    assert_eq!((r.ret, r.text), (EINVAL, None));
    let r = sys_syslog(1, 10);
    assert_eq!((r.ret, r.text), (SUCCESS, None));
    assert_eq!(SyslogAction::from_u32(6), SyslogAction::CONSOLE_OFF);
    assert_eq!(SyslogAction::from_u32(42), SyslogAction::ILLEAGAL);
}

#[test]
fn uname_fills_the_fields() {
    let mut space = gcore::uspace::UserSpace { mem: vec![0xaau8; 512] };
    assert_eq!(sys_uname(&mut space, 10, Arch::Riscv64), SUCCESS);
    assert_eq!(&space.mem[10..16], b"Gcore\0");
    assert_eq!(&space.mem[75..84], b"5.10.0-1\0");
    assert_eq!(&space.mem[140..154], b"5.10.0-1-rv64\0");
    assert_eq!(&space.mem[270..275], b"rv64\0");
    assert_eq!(space.mem[335], 0);
    assert_eq!(space.mem[16], 0xaa);
    let mut la = gcore::uspace::UserSpace { mem: vec![0u8; 400] };
    assert_eq!(sys_uname(&mut la, 0, Arch::Loongarch64), SUCCESS);
    assert_eq!(&la.mem[260..265], b"la64\0");
    let before = space.mem.clone();
    assert_eq!(sys_uname(&mut space, 200, Arch::Riscv64), EFAULT);
    assert_eq!(space.mem, before);
}

#[test]
fn sysinfo_and_times() {
    let tm = two_tasks();
    let (r, info) = sys_sysinfo(&tm, 100, 0x8000_0000, 0x8800_0000, 1000, 4096, true);
    assert_eq!(r, SUCCESS);
    assert_eq!(info.uptime, 100);
    assert_eq!(info.loads, [2184, 436, 145]);
    assert_eq!(info.totalram, 0x800_0000);
    assert_eq!(info.freeram, 4_096_000);
    assert_eq!(info.procs, 2);
    assert_eq!(info.mem_unit, 1);
    assert_eq!(info.totalswap, 0);
    let (r, _) = sys_sysinfo(&tm, 100, 0, 0, 0, 4096, false);
    assert_eq!(r, EFAULT);
    let (r, t) = sys_times(&tm, 500, true);
    assert_eq!(r, 500);
    assert_eq!(t, Times { tms_utime: 11, tms_stime: 4, tms_cutime: 0, tms_cstime: 0 });
    assert_eq!(sys_times(&tm, 500, false).0, EFAULT);
    assert_eq!(sys_getrusage(0, true), SUCCESS);
    assert_eq!(sys_getrusage(0, false), EFAULT);
    assert_eq!(sys_getrusage(-1, true), EINVAL);
}

#[test]
fn affinity_groups_and_priorities() {
    let mut space = gcore::uspace::UserSpace { mem: vec![0xffu8; 256] };
    assert_eq!(sys_sched_getaffinity(&mut space, 0, 8, 16), 8);
    assert_eq!(&space.mem[16..24], &[1, 0, 0, 0, 0, 0, 0, 0]);
    assert_eq!(space.mem[24], 0xff);
    assert_eq!(sys_sched_getaffinity(&mut space, 0, 500, 16), 128);
    assert_eq!(sys_sched_getaffinity(&mut space, 0, 8, 0), EINVAL);
    assert_eq!(sys_sched_getaffinity(&mut space, 0, 0, 16), EINVAL);
    assert_eq!(sys_sched_getaffinity(&mut space, 0, 8, 250), EFAULT);
    let mut g = gcore::uspace::UserSpace { mem: vec![0xffu8; 16] };
    assert_eq!(sys_getgroups(&mut g, 0, 4), 1);
    assert_eq!(g.mem, vec![0xffu8; 16]);
    assert_eq!(sys_getgroups(&mut g, 2, 4), 1);
    assert_eq!(&g.mem[4..8], &[0, 0, 0, 0]);
    assert_eq!(g.mem[8], 0xff);
    assert_eq!(sys_sched_get_priority_max(1), 99);
    assert_eq!(sys_sched_get_priority_max(0), 0);
    assert_eq!(sys_sched_get_priority_min(2), 1);
    assert_eq!(sys_sched_rr_get_interval(1, 0), EINVAL);
    assert_eq!(sys_getpriority(0, 0), 20);
}

#[test]
fn user_sleep_ends_at_the_deadline() {
    assert!(!sleep_elapsed(100, 149, 50));
    assert!(sleep_elapsed(100, 150, 50));
    assert!(sleep_elapsed(100, 100, 0));
    assert!(sleep_elapsed(100, 99, usize::MAX));
    assert!(!sleep_elapsed(100, 98, usize::MAX));
    // The deadline wraps past isize::MAX to isize::MIN.
    assert!(sleep_elapsed(isize::MAX, 0, 1));
}

fn mem_bar(address_type: MemoryBarType, address: u64, size: u64) -> Option<BarInfo> {
    Some(BarInfo::Memory { address_type, prefetchable: false, address, size })
}

#[test]
fn bars_get_blocks_by_width() {
    let mut a = PciRangeAllocator::new(0x4000_0000, 0x1000_0000);
    let r = configure_bar(&mut a, 0, mem_bar(MemoryBarType::Width32, 0, 0x1000));
    assert_eq!(r, (BarWrite::Set32(0x4000_0000), 1));
    let r = configure_bar(&mut a, 1, mem_bar(MemoryBarType::Width64, 0, 0x4000));
    assert_eq!(r, (BarWrite::Set64(0x4000_4000), 3));
    assert_eq!(a.current, 0x4000_8000);
    // Already assigned, empty, I/O and absent BARs are left alone.
    let r = configure_bar(&mut a, 3, mem_bar(MemoryBarType::Width64, 0x5000_0000, 0x4000));
    assert_eq!(r, (BarWrite::Keep, 5));
    let r = configure_bar(&mut a, 3, mem_bar(MemoryBarType::Width32, 0, 0));
    assert_eq!(r, (BarWrite::Keep, 4));
    let r = configure_bar(&mut a, 4, Some(BarInfo::IO { address: 0, size: 0x20 }));
    assert_eq!(r, (BarWrite::Keep, 5));
    assert_eq!(configure_bar(&mut a, 5, None), (BarWrite::Keep, 6));
    assert_eq!(a.current, 0x4000_8000);
    // A BAR below 1 MiB takes its block but gets no write.
    let r = configure_bar(&mut a, 2, mem_bar(MemoryBarType::Below1MiB, 0, 0x100));
    assert_eq!(r, (BarWrite::Keep, 3));
    assert_eq!(a.current, 0x4000_8100);
    // No room: nothing written, the window unchanged.
    let r = configure_bar(&mut a, 0, mem_bar(MemoryBarType::Width64, 0, 0x4000_0000));
    assert_eq!(r, (BarWrite::Keep, 2));
    assert_eq!(a.current, 0x4000_8100);
    assert!(mem_bar(MemoryBarType::Width64, 0, 1).unwrap().takes_two_entries());
    assert!(!mem_bar(MemoryBarType::Width32, 0, 1).unwrap().takes_two_entries());
}

#[test]
fn preload_plan_per_arch() {
    let rv = preload_plan(Arch::Riscv64);
    assert_eq!(rv.len(), 16);
    assert_eq!(rv[0], PreloadStep::Write { path: "initproc", image: Image::Initproc });
    assert_eq!(rv[1], PreloadStep::Free { image: Image::Initproc });
    assert_eq!(rv[5], PreloadStep::Free { image: Image::Busybox });
    assert_eq!(rv[6], PreloadStep::Write { path: "lib/ld-musl-riscv64.so.1", image: Image::LdMusl });
    assert_eq!(rv[8], PreloadStep::Mkdir { path: "musl", required: false });
    assert_eq!(rv[13], PreloadStep::Write { path: "glibc/lib/libc.so.6", image: Image::LdGlibc });
    assert_eq!(rv[15], PreloadStep::Free { image: Image::LdGlibc });
    let la = preload_plan(Arch::Loongarch64);
    assert_eq!(la.len(), 12);
    assert_eq!(la[6], PreloadStep::Mkdir { path: "lib64", required: true });
    assert_eq!(la[11], PreloadStep::Free { image: Image::LdMusl });
}

#[test]
fn mkdir_failures_and_freed_frames() {
    assert!(mkdir_done(Ok(()), true));
    assert!(!mkdir_done(Err(-17), true));
    assert!(mkdir_done(Err(-17), false));
    assert!(!mkdir_done(Err(-1), false));
    assert_eq!(image_frames(0x8020_0800, 0x8020_3000, 0x1000), (0x80200, 0x80203));
    assert_eq!(image_frames(0x8020_0000, 0x8020_0fff, 0x1000), (0x80200, 0x80200));
}

#[test]
fn large_allocations_use_whole_frames() {
    assert_eq!(fallback_frames(100), None);
    assert_eq!(fallback_frames(4095), None);
    assert_eq!(fallback_frames(4096), Some(1));
    assert_eq!(fallback_frames(4097), Some(2));
    assert_eq!(fallback_frames(3 * 4096), Some(3));
    let mut t = LargeAllocs::new();
    let a = t.record(vec![0x80200, 0x80201]);
    assert_eq!(a, 0x8020_0000);
    let b = t.record(vec![0x80300]);
    assert_eq!(b, 0x8030_0000);
    assert_eq!(t.take(a), Some(vec![0x80200, 0x80201]));
    assert_eq!(t.take(a), None);
    assert_eq!(t.take(0x1234), None);
    assert_eq!(t.take(b), Some(vec![0x80300]));
    assert!(t.blocks.is_empty());
}
