//! `wait4`: reaping zombie children.
use vstd::prelude::*;
use crate::errno::EINVAL;
use crate::task::{Task, TaskManager, TaskStatus};
use crate::process::exit_status;

verus! {

/// Every option bit that `wait4` knows.
pub const WAIT_OPTION_BITS: u32 = 0x100000f;
/// What `wait4` returns when no child is selected.
pub const WAIT_NO_CHILD: isize = -1;
/// What `wait4` returns when selected children exist and none has exited.
pub const WAIT_RUNNING: isize = -2;

/// Task `t` is a child of thread `cur_pid` that the selector `pid` asks for
/// (-1: any child; otherwise the child's thread group id).
pub open spec fn wait_selects(t: Task, cur_pid: usize, pid: isize) -> bool {
    t.parent == Some(cur_pid) && (pid == -1 || pid as usize == t.tgid)
}

/// First index at or after `i` of a selected child.
pub open spec fn first_child_from(tasks: Seq<Task>, cur_pid: usize, pid: isize, i: int) -> Option<
    int,
>
    decreases tasks.len() - i,
{
    if i < 0 || i >= tasks.len() {
        None
    } else if wait_selects(tasks[i], cur_pid, pid) {
        Some(i)
    } else {
        first_child_from(tasks, cur_pid, pid, i + 1)
    }
}

/// First index at or after `i` of a selected child that is a zombie.
pub open spec fn first_zombie_from(tasks: Seq<Task>, cur_pid: usize, pid: isize, i: int) -> Option<
    int,
>
    decreases tasks.len() - i,
{
    if i < 0 || i >= tasks.len() {
        None
    } else if wait_selects(tasks[i], cur_pid, pid) && tasks[i].status == TaskStatus::Zombie {
        Some(i)
    } else {
        first_zombie_from(tasks, cur_pid, pid, i + 1)
    }
}

pub proof fn lemma_first_child_bounds(tasks: Seq<Task>, cur_pid: usize, pid: isize, i: int)
    ensures
        first_child_from(tasks, cur_pid, pid, i) matches Some(j) ==> (0 <= j < tasks.len() && i
            <= j && wait_selects(tasks[j], cur_pid, pid)),
    decreases tasks.len() - i,
{
    if 0 <= i < tasks.len() {
        lemma_first_child_bounds(tasks, cur_pid, pid, i + 1);
    }
}

pub proof fn lemma_first_zombie_bounds(tasks: Seq<Task>, cur_pid: usize, pid: isize, i: int)
    ensures
        first_zombie_from(tasks, cur_pid, pid, i) matches Some(j) ==> (0 <= j < tasks.len() && i
            <= j && wait_selects(tasks[j], cur_pid, pid) && tasks[j].status
            == TaskStatus::Zombie),
    decreases tasks.len() - i,
{
    if 0 <= i < tasks.len() {
        lemma_first_zombie_bounds(tasks, cur_pid, pid, i + 1);
    }
}

/// What one `wait4` finds.
#[derive(Clone, Copy, Debug, PartialEq, Eq)]
pub enum WaitFound {
    /// A thread group leader was reaped: its thread group id and wait status.
    Reaped { pid: usize, status: u32 },
    /// No child is selected.
    NoChild,
    /// Selected children exist and none has exited.
    Running,
}

/// The table after `wait4` and what it found. Selected zombie children are
/// released in table order; releasing a thread group leader ends the call,
/// releasing another thread goes on looking.
pub open spec fn wait_spec(tasks: Seq<Task>, cur_pid: usize, pid: isize) -> (Seq<Task>, WaitFound)
    decreases tasks.len(),
{
    if first_child_from(tasks, cur_pid, pid, 0) is None {
        (tasks, WaitFound::NoChild)
    } else {
        match first_zombie_from(tasks, cur_pid, pid, 0) {
            Some(k) => {
                proof {
                    lemma_first_zombie_bounds(tasks, cur_pid, pid, 0);
                }
                let child = tasks[k];
                let rest = tasks.remove(k);
                if child.pid == child.tgid {
                    (rest, WaitFound::Reaped { pid: child.tgid, status: child.exit_code })
                } else {
                    wait_spec(rest, cur_pid, pid)
                }
            },
            None => (tasks, WaitFound::Running),
        }
    }
}

/// What `wait4` answers.
#[derive(Clone, Copy, Debug, PartialEq, Eq)]
pub enum WaitAction {
    /// Return `ret`; when `status` is present, store it at the status address
    /// if that address is not null.
    Return { ret: isize, status: Option<u32> },
}

fn first_child(tm: &TaskManager, cur_pid: usize, pid: isize) -> (r: Option<usize>)
    ensures
        r matches Some(i) ==> first_child_from(tm.tasks@, cur_pid, pid, 0) == Some(i as int),
        r is None ==> first_child_from(tm.tasks@, cur_pid, pid, 0) is None,
{
    let mut i: usize = 0;
    while i < tm.tasks.len()
        invariant
            i <= tm.tasks.len(),
            first_child_from(tm.tasks@, cur_pid, pid, 0) == first_child_from(
                tm.tasks@,
                cur_pid,
                pid,
                i as int,
            ),
        decreases tm.tasks.len() - i,
    {
        let t = tm.tasks[i];
        if t.parent == Some(cur_pid) && (pid == -1 || pid as usize == t.tgid) {
            return Some(i);
        }
        i = i + 1;
    }
    None
}

fn first_zombie(tm: &TaskManager, cur_pid: usize, pid: isize) -> (r: Option<usize>)
    ensures
        r matches Some(i) ==> first_zombie_from(tm.tasks@, cur_pid, pid, 0) == Some(i as int),
        r is None ==> first_zombie_from(tm.tasks@, cur_pid, pid, 0) is None,
{
    let mut i: usize = 0;
    while i < tm.tasks.len()
        invariant
            i <= tm.tasks.len(),
            first_zombie_from(tm.tasks@, cur_pid, pid, 0) == first_zombie_from(
                tm.tasks@,
                cur_pid,
                pid,
                i as int,
            ),
        decreases tm.tasks.len() - i,
    {
        let t = tm.tasks[i];
        if t.parent == Some(cur_pid) && (pid == -1 || pid as usize == t.tgid) && t.status
            == TaskStatus::Zombie {
            return Some(i);
        }
        i = i + 1;
    }
    None
}

/// What `wait4` answers: EINVAL for unknown option bits; otherwise the
/// reaped leader's process id and status, `WAIT_NO_CHILD` (-1) when no child
/// is selected, and `WAIT_RUNNING` (-2) when selected children exist and
/// none has exited, whatever the options.
pub open spec fn wait4_result(tasks: Seq<Task>, cur_pid: usize, pid: isize, option: u32) -> WaitAction {
    if option & !WAIT_OPTION_BITS != 0 {
        WaitAction::Return { ret: EINVAL, status: None }
    } else {
        match wait_spec(tasks, cur_pid, pid).1 {
            WaitFound::Reaped { pid: p, status: s } => WaitAction::Return { ret: p as isize, status: Some(s) },
            WaitFound::NoChild => WaitAction::Return { ret: WAIT_NO_CHILD, status: None },
            WaitFound::Running => WaitAction::Return { ret: WAIT_RUNNING, status: None },
        }
    }
}

/// The table after `wait4`: unchanged for unknown option bits, else with
/// zombie children released as `wait_spec` says.
pub open spec fn wait4_tasks(tasks: Seq<Task>, cur_pid: usize, pid: isize, option: u32) -> Seq<Task> {
    if option & !WAIT_OPTION_BITS != 0 {
        tasks
    } else {
        wait_spec(tasks, cur_pid, pid).0
    }
}

/// Waits for a child selected by `pid` (-1 for any), as `wait4_result` and
/// `wait4_tasks` say. The calling task must be running.
pub fn sys_wait4(tm: &mut TaskManager, pid: isize, option: u32) -> (r: WaitAction)
    requires
        old(tm).wf(),
        old(tm).cur().status != TaskStatus::Zombie,
    ensures
        final(tm).wf(),
        final(tm).cur() == old(tm).cur(),
        final(tm).user_stack_size == old(tm).user_stack_size,
        final(tm).task_limit == old(tm).task_limit,
        final(tm).user_heap_size == old(tm).user_heap_size,
        final(tm).tasks@ == wait4_tasks(old(tm).tasks@, old(tm).cur().pid, pid, option),
        r == wait4_result(old(tm).tasks@, old(tm).cur().pid, pid, option),
{
    if option & !WAIT_OPTION_BITS != 0 {
        return WaitAction::Return { ret: EINVAL, status: None };
    }
    let cur = tm.tasks[tm.current];
    let cur_pid = cur.pid;
    let ghost orig = tm.tasks@;
    loop
        invariant
            tm.wf(),
            tm.cur() == cur,
            cur.status != TaskStatus::Zombie,
            cur_pid == cur.pid,
            option & !WAIT_OPTION_BITS == 0,
            tm.user_stack_size == old(tm).user_stack_size,
            tm.task_limit == old(tm).task_limit,
            tm.user_heap_size == old(tm).user_heap_size,
            wait_spec(tm.tasks@, cur_pid, pid) == wait_spec(orig, cur_pid, pid),
            orig == old(tm).tasks@,
            cur == old(tm).cur(),
        decreases tm.tasks.len(),
    {
        if first_child(tm, cur_pid, pid).is_none() {
            return WaitAction::Return { ret: WAIT_NO_CHILD, status: None };
        }
        match first_zombie(tm, cur_pid, pid) {
            Some(k) => {
                proof {
                    lemma_first_zombie_bounds(tm.tasks@, cur_pid, pid, 0);
                }
                let child = tm.tasks[k];
                assert(k != tm.current);
                let ghost before = tm.tasks@;
                tm.tasks.remove(k);
                if k < tm.current {
                    tm.current = tm.current - 1;
                }
                assert(tm.tasks@ == before.remove(k as int));
                if child.pid == child.tgid {
                    return WaitAction::Return { ret: child.tgid as isize, status: Some(child.exit_code) };
                }
            },
            None => {
                return WaitAction::Return { ret: WAIT_RUNNING, status: None };
            },
        }
    }
}

/// `waitid` falls back to `wait4` with the id as selector and the options as
/// given.
pub fn sys_waitid(tm: &mut TaskManager, id: usize, options: usize) -> (r: WaitAction)
    requires
        old(tm).wf(),
        old(tm).cur().status != TaskStatus::Zombie,
    ensures
        final(tm).wf(),
        final(tm).cur() == old(tm).cur(),
        final(tm).tasks@ == wait4_tasks(old(tm).tasks@, old(tm).cur().pid, id as isize, options as u32),
        r == wait4_result(old(tm).tasks@, old(tm).cur().pid, id as isize, options as u32),
{
    sys_wait4(tm, id as isize, options as u32)
}


proof fn lemma_only_child_found(tasks: Seq<Task>, cur_pid: usize, pid: isize, c: int, i: int)
    requires
        0 <= i <= c < tasks.len(),
        wait_selects(tasks[c], cur_pid, pid),
        forall|j: int| 0 <= j < tasks.len() && j != c ==> !wait_selects(#[trigger] tasks[j], cur_pid, pid),
    ensures
        first_child_from(tasks, cur_pid, pid, i) == Some(c),
        tasks[c].status == TaskStatus::Zombie ==> first_zombie_from(tasks, cur_pid, pid, i) == Some(c),
    decreases c - i,
{
    if i < c {
        lemma_only_child_found(tasks, cur_pid, pid, c, i + 1);
    }
}

/// A child that exits is reaped by its parent's `wait4` for it: the call
/// returns the child's process id and the wait status of its exit code. The
/// child leads its thread group, and no other task is a child of the caller
/// in that group.
pub proof fn law_exit_then_wait(tasks: Seq<Task>, cur: int, c: int, exit_code: u32)
    requires
        0 <= cur < tasks.len(),
        0 <= c < tasks.len(),
        c != cur,
        tasks[c].parent == Some(tasks[cur].pid),
        tasks[c].pid == tasks[c].tgid,
        tasks[c].tgid <= isize::MAX,
        forall|j: int|
            0 <= j < tasks.len() && j != c ==> !wait_selects(
                #[trigger] tasks[j],
                tasks[cur].pid,
                tasks[c].tgid as isize,
            ),
    ensures
        ({
            let exited = tasks.update(
                c,
                Task { status: TaskStatus::Zombie, exit_code: exit_status(exit_code), ..tasks[c] },
            );
            wait_spec(exited, tasks[cur].pid, tasks[c].tgid as isize).1 == WaitFound::Reaped {
                pid: tasks[c].tgid,
                status: exit_status(exit_code),
            }
        }),
{
    let exited = tasks.update(
        c,
        Task { status: TaskStatus::Zombie, exit_code: exit_status(exit_code), ..tasks[c] },
    );
    let pid = tasks[c].tgid as isize;
    assert(pid as usize == tasks[c].tgid);
    assert forall|j: int| 0 <= j < exited.len() && j != c implies !wait_selects(
        #[trigger] exited[j],
        tasks[cur].pid,
        pid,
    ) by {
        assert(exited[j] == tasks[j]);
    }
    lemma_only_child_found(exited, tasks[cur].pid, pid, c, 0);
}

/// A caller with no child selected by `pid` is told so (`WAIT_NO_CHILD`) and
/// the table stays as it was.
pub proof fn law_wait_without_child(tasks: Seq<Task>, cur_pid: usize, pid: isize, option: u32)
    requires
        forall|j: int| 0 <= j < tasks.len() ==> !wait_selects(#[trigger] tasks[j], cur_pid, pid),
        option & !WAIT_OPTION_BITS == 0,
    ensures
        wait_spec(tasks, cur_pid, pid) == (tasks, WaitFound::NoChild),
        wait4_tasks(tasks, cur_pid, pid, option) == tasks,
        wait4_result(tasks, cur_pid, pid, option) == (WaitAction::Return { ret: WAIT_NO_CHILD, status: None }),
{
    lemma_no_child(tasks, cur_pid, pid, 0);
}

proof fn lemma_no_child(tasks: Seq<Task>, cur_pid: usize, pid: isize, i: int)
    requires
        0 <= i,
        forall|j: int| 0 <= j < tasks.len() ==> !wait_selects(#[trigger] tasks[j], cur_pid, pid),
    ensures
        first_child_from(tasks, cur_pid, pid, i) is None,
    decreases tasks.len() - i,
{
    if i < tasks.len() {
        lemma_no_child(tasks, cur_pid, pid, i + 1);
    }
}

} // verus!
