//! Process system calls over the task table: signals, identities, exit and
//! wait, resource limits, the heap break and the robust futex list.
use vstd::prelude::*;
use crate::errno::{SUCCESS, EINVAL, ESRCH, EFAULT};
use crate::signal::{Signals, signal_bit, lemma_union_contains, lemma_signal_bit_nonzero};
use crate::task::{
    find_tgid_from,
    ITimerVal, Task, TaskManager, TaskStatus, find_by_tgid, find_by_pid, find_any_by_pid,
    lemma_find_tgid_from_bounds, lemma_find_pid_from_bounds, lemma_find_any_pid_from_bounds,
    lemma_find_unique_pid,
};

verus! {

/// The task after a signal set is delivered to it: an empty set changes
/// nothing; otherwise the signals become pending and a task in interruptible
/// sleep is made ready.
pub open spec fn delivered(t: Task, sig: Signals) -> Task {
    if sig.bits == 0 {
        t
    } else {
        Task {
            sigpending: Signals { bits: t.sigpending.bits | sig.bits },
            status: if t.status == TaskStatus::Interruptible {
                TaskStatus::Ready
            } else {
                t.status
            },
            ..t
        }
    }
}

/// The signal set named by a signal number, as `Signals::from_signum` gives it.
pub open spec fn signum_set(sig: usize) -> Signals
    recommends
        sig <= 64,
{
    if sig == 0 {
        Signals { bits: 0 }
    } else {
        Signals { bits: signal_bit(sig) }
    }
}

/// Adds `sig` to the pending signals of task `i` and wakes it if it sleeps
/// interruptibly.
fn deliver_signal(tm: &mut TaskManager, i: usize, sig: Signals)
    requires
        i < old(tm).tasks.len(),
    ensures
        final(tm).tasks@ == old(tm).tasks@.update(i as int, delivered(old(tm).tasks@[i as int], sig)),
        final(tm).current == old(tm).current,
        final(tm).user_stack_size == old(tm).user_stack_size,
        final(tm).task_limit == old(tm).task_limit,
        final(tm).user_heap_size == old(tm).user_heap_size,
{
    if !sig.is_empty() {
        let mut t = tm.tasks[i];
        t.sigpending = t.sigpending.union(sig);
        if t.status == TaskStatus::Interruptible {
            t.status = TaskStatus::Ready;
        }
        tm.tasks.set(i, t);
    }
}

/// The table is unchanged apart from the tasks.
pub open spec fn same_config(a: &TaskManager, b: &TaskManager) -> bool {
    &&& a.current == b.current
    &&& a.user_stack_size == b.user_stack_size
    &&& a.task_limit == b.task_limit
    &&& a.user_heap_size == b.user_heap_size
}

/// Sends signal `sig` to the thread group `pid`, read as a signed number:
/// EINVAL for a signal number above 64; for a positive `pid` the first live
/// task of the group receives it, or ESRCH when there is none; 0 (the
/// caller's group), -1 (every process) and other negative values (a process
/// group) succeed without sending.
pub fn sys_kill(tm: &mut TaskManager, pid: usize, sig: usize) -> (r: isize)
    ensures
        same_config(final(tm), old(tm)),
        sig > 64 ==> r == EINVAL && final(tm).tasks@ == old(tm).tasks@,
        sig <= 64 && (pid as isize) <= 0 ==> r == SUCCESS && final(tm).tasks@ == old(tm).tasks@,
        sig <= 64 && (pid as isize) > 0 ==> match find_by_tgid(old(tm).tasks@, pid) {
            Some(i) => r == SUCCESS && final(tm).tasks@ == old(tm).tasks@.update(
                i,
                delivered(old(tm).tasks@[i], signum_set(sig)),
            ),
            None => r == ESRCH && final(tm).tasks@ == old(tm).tasks@,
        },
{
    let signal = match Signals::from_signum(sig) {
        Some(s) => s,
        None => return EINVAL,
    };
    if (pid as isize) > 0 {
        match tm.find_task_by_tgid(pid) {
            Some(i) => {
                proof {
                    lemma_find_tgid_from_bounds(tm.tasks@, pid, 0);
                }
                deliver_signal(tm, i, signal);
                SUCCESS
            },
            None => ESRCH,
        }
    } else {
        SUCCESS
    }
}

/// Sends signal `sig` to the thread `tid`, read as a signed number: EINVAL
/// for a signal number above 64 or a `tid` that is not positive (0, -1 and
/// below), ESRCH when no live thread has that id.
pub fn sys_tkill(tm: &mut TaskManager, tid: usize, sig: usize) -> (r: isize)
    ensures
        same_config(final(tm), old(tm)),
        (sig > 64 || (tid as isize) <= 0) ==> r == EINVAL && final(tm).tasks@ == old(tm).tasks@,
        sig <= 64 && (tid as isize) > 0 ==> match find_by_pid(old(tm).tasks@, tid) {
            Some(i) => r == SUCCESS && final(tm).tasks@ == old(tm).tasks@.update(
                i,
                delivered(old(tm).tasks@[i], signum_set(sig)),
            ),
            None => r == ESRCH && final(tm).tasks@ == old(tm).tasks@,
        },
{
    let signal = match Signals::from_signum(sig) {
        Some(s) => s,
        None => return EINVAL,
    };
    if (tid as isize) > 0 {
        match tm.find_task_by_pid(tid) {
            Some(i) => {
                proof {
                    lemma_find_pid_from_bounds(tm.tasks@, tid, 0);
                }
                deliver_signal(tm, i, signal);
                SUCCESS
            },
            None => ESRCH,
        }
    } else {
        EINVAL
    }
}

/// Sends signal `sig` to thread `tid` of thread group `tgid`: EINVAL for a
/// signal number above 64, ESRCH when the group has no live task. The signal
/// reaches the group's first live task only when its thread id is `tid`;
/// otherwise the call succeeds and sends nothing.
pub fn sys_tgkill(tm: &mut TaskManager, tgid: usize, tid: usize, sig: usize) -> (r: isize)
    ensures
        same_config(final(tm), old(tm)),
        sig > 64 ==> r == EINVAL && final(tm).tasks@ == old(tm).tasks@,
        sig <= 64 ==> match find_by_tgid(old(tm).tasks@, tgid) {
            Some(i) => r == SUCCESS && (if old(tm).tasks@[i].pid == tid {
                final(tm).tasks@ == old(tm).tasks@.update(
                    i,
                    delivered(old(tm).tasks@[i], signum_set(sig)),
                )
            } else {
                final(tm).tasks@ == old(tm).tasks@
            }),
            None => r == ESRCH && final(tm).tasks@ == old(tm).tasks@,
        },
{
    let signal = match Signals::from_signum(sig) {
        Some(s) => s,
        None => return EINVAL,
    };
    match tm.find_task_by_tgid(tgid) {
        Some(i) => {
            proof {
                lemma_find_tgid_from_bounds(tm.tasks@, tgid, 0);
            }
            if !signal.is_empty() && tm.tasks[i].pid == tid {
                deliver_signal(tm, i, signal);
            }
            SUCCESS
        },
        None => ESRCH,
    }
}


/// The wait status of a task that exits with `exit_code`: the low eight bits,
/// shifted into the second byte.
pub open spec fn exit_status(exit_code: u32) -> u32 {
    (exit_code & 0xff) << 8
}

/// The user's process id of the calling task: its thread group id.
pub fn sys_getpid(tm: &TaskManager) -> (r: isize)
    requires
        tm.wf(),
    ensures
        r == tm.cur().tgid as isize,
{
    tm.tasks[tm.current].tgid as isize
}

/// The process id of the parent: the thread group id of the task named as
/// parent while it is still in the table, else 1.
pub fn sys_getppid(tm: &TaskManager) -> (r: isize)
    requires
        tm.wf(),
    ensures
        r == match tm.cur().parent {
            Some(ppid) => match find_any_by_pid(tm.tasks@, ppid) {
                Some(j) => tm.tasks@[j].tgid as isize,
                None => 1,
            },
            None => 1,
        },
{
    match tm.tasks[tm.current].parent {
        Some(ppid) => match tm.find_any_task_by_pid(ppid) {
            Some(j) => {
                proof {
                    lemma_find_any_pid_from_bounds(tm.tasks@, ppid, 0);
                }
                tm.tasks[j].tgid as isize
            },
            None => 1,
        },
        None => 1,
    }
}

/// User id: always root.
pub fn sys_getuid() -> (r: isize)
    ensures
        r == 0,
{
    0
}

/// Effective user id: always root.
pub fn sys_geteuid() -> (r: isize)
    ensures
        r == 0,
{
    0
}

/// Group id: always root.
pub fn sys_getgid() -> (r: isize)
    ensures
        r == 0,
{
    0
}

/// Effective group id: always root.
pub fn sys_getegid() -> (r: isize)
    ensures
        r == 0,
{
    0
}

/// Sets the process group of the first live task of thread group `pid`, or
/// ESRCH when there is none.
pub fn sys_setpgid(tm: &mut TaskManager, pid: usize, pgid: usize) -> (r: isize)
    ensures
        same_config(final(tm), old(tm)),
        match find_by_tgid(old(tm).tasks@, pid) {
            Some(i) => r == SUCCESS && final(tm).tasks@ == old(tm).tasks@.update(
                i,
                Task { pgid: pgid, ..old(tm).tasks@[i] },
            ),
            None => r == ESRCH && final(tm).tasks@ == old(tm).tasks@,
        },
{
    match tm.find_task_by_tgid(pid) {
        Some(i) => {
            proof {
                lemma_find_tgid_from_bounds(tm.tasks@, pid, 0);
            }
            let mut t = tm.tasks[i];
            t.pgid = pgid;
            tm.tasks.set(i, t);
            SUCCESS
        },
        None => ESRCH,
    }
}

/// The process group of the first live task of thread group `pid`, or ESRCH.
pub fn sys_getpgid(tm: &TaskManager, pid: usize) -> (r: isize)
    ensures
        match find_by_tgid(tm.tasks@, pid) {
            Some(i) => r == tm.tasks@[i].pgid as isize,
            None => r == ESRCH,
        },
{
    match tm.find_task_by_tgid(pid) {
        Some(i) => {
            proof {
                lemma_find_tgid_from_bounds(tm.tasks@, pid, 0);
            }
            tm.tasks[i].pgid as isize
        },
        None => ESRCH,
    }
}

/// Detaches the calling task from its parent: it leaves the parent's children
/// and has no parent afterwards. The caller must have a parent.
pub fn sys_setsid(tm: &mut TaskManager) -> (r: isize)
    requires
        old(tm).wf(),
        old(tm).cur().parent is Some,
    ensures
        r == SUCCESS,
        same_config(final(tm), old(tm)),
        final(tm).tasks@ == old(tm).tasks@.update(
            old(tm).current as int,
            Task { parent: None, ..old(tm).cur() },
        ),
{
    let mut t = tm.tasks[tm.current];
    t.parent = None;
    tm.tasks.set(tm.current, t);
    SUCCESS
}

/// The thread id of the calling task.
pub fn sys_gettid(tm: &TaskManager) -> (r: isize)
    requires
        tm.wf(),
    ensures
        r == tm.cur().pid as isize,
{
    tm.tasks[tm.current].pid as isize
}

/// Records the address to clear when the calling thread exits and returns
/// its thread id.
pub fn sys_set_tid_address(tm: &mut TaskManager, tidptr: usize) -> (r: isize)
    requires
        old(tm).wf(),
    ensures
        r == old(tm).cur().pid as isize,
        same_config(final(tm), old(tm)),
        final(tm).tasks@ == old(tm).tasks@.update(
            old(tm).current as int,
            Task { clear_child_tid: tidptr, ..old(tm).cur() },
        ),
{
    let mut t = tm.tasks[tm.current];
    t.clear_child_tid = tidptr;
    tm.tasks.set(tm.current, t);
    sys_gettid(tm)
}

/// Size of a robust futex list head.
pub const ROBUST_LIST_HEAD_SIZE: usize = 24;

/// Records the robust futex list head of the calling task; EINVAL unless `len`
/// is the size of a list head.
pub fn sys_set_robust_list(tm: &mut TaskManager, head: usize, len: usize) -> (r: isize)
    requires
        old(tm).wf(),
    ensures
        same_config(final(tm), old(tm)),
        len != ROBUST_LIST_HEAD_SIZE ==> r == EINVAL && final(tm).tasks@ == old(tm).tasks@,
        len == ROBUST_LIST_HEAD_SIZE ==> r == SUCCESS && final(tm).tasks@ == old(tm).tasks@.update(
            old(tm).current as int,
            Task { robust_head: head, ..old(tm).cur() },
        ),
{
    if len != ROBUST_LIST_HEAD_SIZE {
        return EINVAL;
    }
    let mut t = tm.tasks[tm.current];
    t.robust_head = head;
    tm.tasks.set(tm.current, t);
    SUCCESS
}

/// The robust list head and length to hand back for thread `pid` (0 for the
/// caller), with the copy to user space done by the caller: ESRCH when no
/// live thread has that id, EFAULT when a copy failed.
pub fn sys_get_robust_list(tm: &TaskManager, pid: u32, copies_ok: bool) -> (r: (
    isize,
    Option<(usize, usize)>,
))
    requires
        tm.wf(),
    ensures
        pid == 0 ==> r.1 == Some((tm.cur().robust_head, tm.cur().robust_len)),
        pid != 0 ==> r.1 == match find_by_pid(tm.tasks@, pid as usize) {
            Some(i) => Some((tm.tasks@[i].robust_head, tm.tasks@[i].robust_len)),
            None => None,
        },
        r.1 is None ==> r.0 == ESRCH,
        r.1 is Some ==> r.0 == if copies_ok {
            SUCCESS
        } else {
            EFAULT
        },
{
    let i = if pid == 0 {
        tm.current
    } else {
        match tm.find_task_by_pid(pid as usize) {
            Some(i) => {
                proof {
                    lemma_find_pid_from_bounds(tm.tasks@, pid as usize, 0);
                }
                i
            },
            None => return (ESRCH, None),
        }
    };
    let t = tm.tasks[i];
    let v = Some((t.robust_head, t.robust_len));
    if copies_ok {
        (SUCCESS, v)
    } else {
        (EFAULT, v)
    }
}

/// Ends the calling task: it becomes a zombie holding the wait status of
/// `exit_code` for its parent.
pub fn sys_exit(tm: &mut TaskManager, exit_code: u32)
    requires
        old(tm).wf(),
    ensures
        same_config(final(tm), old(tm)),
        final(tm).tasks@ == old(tm).tasks@.update(
            old(tm).current as int,
            Task { status: TaskStatus::Zombie, exit_code: exit_status(exit_code), ..old(tm).cur() },
        ),
{
    let mut t = tm.tasks[tm.current];
    t.status = TaskStatus::Zombie;
    t.exit_code = (exit_code & 0xff) << 8;
    tm.tasks.set(tm.current, t);
}

/// Ends the calling thread group; for the calling task the effect is that of
/// `sys_exit`.
pub fn sys_exit_group(tm: &mut TaskManager, exit_code: u32)
    requires
        old(tm).wf(),
    ensures
        same_config(final(tm), old(tm)),
        final(tm).tasks@ == old(tm).tasks@.update(
            old(tm).current as int,
            Task { status: TaskStatus::Zombie, exit_code: exit_status(exit_code), ..old(tm).cur() },
        ),
{
    sys_exit(tm, exit_code)
}


/// `setitimer`: for timer 0 (real), 1 (virtual) or 2 (profiling), hands back
/// the old setting and installs `new_value` when one was given; other timers
/// are EINVAL.
pub fn sys_setitimer(tm: &mut TaskManager, which: usize, new_value: Option<ITimerVal>) -> (r: (
    isize,
    Option<ITimerVal>,
))
    requires
        old(tm).wf(),
    ensures
        same_config(final(tm), old(tm)),
        which > 2 ==> r == (EINVAL, None::<ITimerVal>) && final(tm).tasks@ == old(tm).tasks@,
        which <= 2 ==> ({
            let t = old(tm).cur();
            let old_v = if which == 0 {
                t.timer_real
            } else if which == 1 {
                t.timer_virtual
            } else {
                t.timer_prof
            };
            &&& r == (SUCCESS, Some(old_v))
            &&& match new_value {
                None => final(tm).tasks@ == old(tm).tasks@,
                Some(v) => final(tm).tasks@ == old(tm).tasks@.update(
                    old(tm).current as int,
                    if which == 0 {
                        Task { timer_real: v, ..t }
                    } else if which == 1 {
                        Task { timer_virtual: v, ..t }
                    } else {
                        Task { timer_prof: v, ..t }
                    },
                ),
            }
        }),
{
    if which > 2 {
        return (EINVAL, None);
    }
    let mut t = tm.tasks[tm.current];
    let old_v = if which == 0 {
        t.timer_real
    } else if which == 1 {
        t.timer_virtual
    } else {
        t.timer_prof
    };
    if let Some(v) = new_value {
        if which == 0 {
            t.timer_real = v;
        } else if which == 1 {
            t.timer_virtual = v;
        } else {
            t.timer_prof = v;
        }
        tm.tasks.set(tm.current, t);
    }
    (SUCCESS, Some(old_v))
}

/// The heap of the running task lies between its bottom and bottom plus the
/// heap size, and that fits in a word.
pub open spec fn heap_ok(tm: &TaskManager) -> bool {
    &&& tm.wf()
    &&& tm.cur().heap_bottom <= tm.cur().heap_pt
    &&& tm.cur().heap_pt <= tm.cur().heap_bottom + tm.user_heap_size
    &&& tm.cur().heap_bottom + tm.user_heap_size <= usize::MAX
}

/// The heap end after moving it by `increment`: growing beyond bottom plus
/// `size`, or shrinking below the bottom, leaves it where it was.
pub open spec fn sbrk_spec(pt: usize, bottom: usize, size: usize, increment: isize) -> usize {
    let new_pt = pt + increment;
    if increment > 0 && new_pt > bottom + size {
        pt
    } else if increment < 0 && new_pt < bottom {
        pt
    } else {
        new_pt as usize
    }
}

fn sbrk(tm: &mut TaskManager, increment: isize) -> (pt: usize)
    requires
        heap_ok(old(tm)),
    ensures
        heap_ok(final(tm)),
        same_config(final(tm), old(tm)),
        pt == sbrk_spec(old(tm).cur().heap_pt, old(tm).cur().heap_bottom, old(tm).user_heap_size, increment),
        final(tm).tasks@ == old(tm).tasks@.update(old(tm).current as int, Task { heap_pt: pt, ..old(tm).cur() }),
{
    let mut t = tm.tasks[tm.current];
    let limit = t.heap_bottom + tm.user_heap_size;
    let pt = t.heap_pt;
    let new_pt = if increment > 0 {
        let inc = increment as usize;
        if inc > limit - pt {
            pt
        } else {
            pt + inc
        }
    } else if increment < 0 {
        let dec: usize = ((-(increment + 1)) as usize) + 1;
        if dec > pt - t.heap_bottom {
            pt
        } else {
            pt - dec
        }
    } else {
        pt
    };
    t.heap_pt = new_pt;
    tm.tasks.set(tm.current, t);
    new_pt
}

/// `sbrk`: moves the heap end of the calling task by `increment` as
/// `sbrk_spec` says and returns the new end.
pub fn sys_sbrk(tm: &mut TaskManager, increment: isize) -> (r: isize)
    requires
        heap_ok(old(tm)),
    ensures
        heap_ok(final(tm)),
        same_config(final(tm), old(tm)),
        ({
            let pt = sbrk_spec(old(tm).cur().heap_pt, old(tm).cur().heap_bottom, old(tm).user_heap_size, increment);
            &&& r == pt as isize
            &&& final(tm).tasks@ == old(tm).tasks@.update(old(tm).current as int, Task { heap_pt: pt, ..old(tm).cur() })
        }),
{
    let pt = sbrk(tm, increment);
    pt as isize
}

/// `brk`: 0 asks for the heap end; any other address moves the end there by
/// the (wrapping) difference from the present end, as `sbrk` would. Returns
/// the new end.
pub fn sys_brk(tm: &mut TaskManager, brk_addr: usize) -> (r: isize)
    requires
        heap_ok(old(tm)),
    ensures
        heap_ok(final(tm)),
        same_config(final(tm), old(tm)),
        ({
            let t = old(tm).cur();
            let pt = if brk_addr == 0 {
                t.heap_pt
            } else {
                sbrk_spec(
                    t.heap_pt,
                    t.heap_bottom,
                    old(tm).user_heap_size,
                    vstd::wrapping::usize_specs::wrapping_sub(brk_addr, t.heap_pt) as isize,
                )
            };
            &&& r == pt as isize
            &&& final(tm).tasks@ == old(tm).tasks@.update(old(tm).current as int, Task { heap_pt: pt, ..t })
        }),
{
    if brk_addr == 0 {
        let pt = sbrk(tm, 0);
        pt as isize
    } else {
        let former = tm.tasks[tm.current].heap_pt;
        let grow: isize = brk_addr.wrapping_sub(former) as isize;
        let pt = sbrk(tm, grow);
        pt as isize
    }
}


/// A valid signal other than 0, once delivered, is pending at the task, and
/// the task no longer sleeps interruptibly.
pub proof fn law_kill_delivers(t: Task, sig: usize)
    requires
        1 <= sig <= 64,
    ensures
        delivered(t, signum_set(sig)).sigpending.contains_all(signum_set(sig)),
        delivered(t, signum_set(sig)).status != TaskStatus::Interruptible,
        delivered(t, signum_set(sig)).pid == t.pid,
        delivered(t, signum_set(sig)).tgid == t.tgid,
{
    lemma_signal_bit_nonzero(sig);
    lemma_union_contains(t.sigpending, signum_set(sig));
}

/// Signal number 0 delivers nothing: the task is unchanged.
pub proof fn law_signal_zero_changes_nothing(t: Task)
    ensures
        delivered(t, signum_set(0)) == t,
{
}

proof fn lemma_find_tgid_update(tasks: Seq<Task>, tgid: usize, k: int, t: Task, i: int)
    requires
        0 <= k < tasks.len(),
        t.tgid == tasks[k].tgid,
        t.status == tasks[k].status,
    ensures
        find_tgid_from(tasks.update(k, t), tgid, i) == find_tgid_from(tasks, tgid, i),
    decreases tasks.len() - i,
{
    if 0 <= i < tasks.len() {
        lemma_find_tgid_update(tasks, tgid, k, t, i + 1);
    }
}

/// After `setpgid(pid, pgid)` succeeds, `getpgid(pid)` finds the same task
/// and reports `pgid`.
pub proof fn law_setpgid_then_getpgid(tasks: Seq<Task>, pid: usize, pgid: usize)
    requires
        find_by_tgid(tasks, pid) is Some,
    ensures
        ({
            let i = find_by_tgid(tasks, pid)->0;
            let after = tasks.update(i, Task { pgid: pgid, ..tasks[i] });
            find_by_tgid(after, pid) == Some(i) && after[i].pgid == pgid
        }),
{
    let i = find_by_tgid(tasks, pid)->0;
    lemma_find_tgid_from_bounds(tasks, pid, 0);
    lemma_find_tgid_update(tasks, pid, i, Task { pgid: pgid, ..tasks[i] }, 0);
}

/// After `set_robust_list(head, 24)` succeeds, `get_robust_list` for the
/// caller, asked by thread id 0 or by its own thread id, finds the caller and
/// hands back `head` and the length.
pub proof fn law_robust_list_set_then_get(before: &TaskManager, after: &TaskManager, head: usize)
    requires
        before.wf(),
        after.current == before.current,
        after.tasks@ == before.tasks@.update(
            before.current as int,
            Task { robust_head: head, ..before.cur() },
        ),
    ensures
        after.wf(),
        find_by_pid(after.tasks@, after.cur().pid) == Some(after.current as int),
        after.cur().robust_head == head,
        after.cur().robust_len == before.cur().robust_len,
{
    let t = after.tasks@;
    assert forall|i: int, j: int|
        0 <= i < t.len() && 0 <= j < t.len() && i != j && t[i].status != TaskStatus::Zombie
            && t[j].status != TaskStatus::Zombie implies #[trigger] t[i].pid != #[trigger] t[j].pid by {
        assert(t[i].pid == before.tasks@[i].pid && t[i].status == before.tasks@[i].status);
        assert(t[j].pid == before.tasks@[j].pid && t[j].status == before.tasks@[j].status);
    }
    lemma_find_unique_pid(t, after.current as int, 0);
}

/// Moving the heap end by `increment` and back by `-increment` returns it to
/// where it was, when the first move stayed within the heap.
pub proof fn law_sbrk_undo(pt: usize, bottom: usize, size: usize, increment: isize)
    requires
        bottom <= pt <= bottom + size,
        bottom + size <= usize::MAX,
        increment != isize::MIN,
        bottom <= pt + increment <= bottom + size,
    ensures
        sbrk_spec(sbrk_spec(pt, bottom, size, increment), bottom, size, (-increment) as isize) == pt,
{
}

} // verus!
