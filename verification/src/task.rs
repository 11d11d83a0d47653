//! The task table: every task the kernel knows, and the task that the current
//! hart runs.
use vstd::prelude::*;
use crate::signal::Signals;
use crate::time::TimeVal;

verus! {

/// Scheduling state of a task.
#[derive(Clone, Copy, Debug, PartialEq, Eq, Structural)]
pub enum TaskStatus {
    Ready,
    Running,
    Interruptible,
    Zombie,
}

/// One interval timer (`setitimer`).
#[derive(Clone, Copy, Debug, PartialEq, Eq)]
pub struct ITimerVal {
    pub it_interval: TimeVal,
    pub it_value: TimeVal,
}

/// The part of a task control block that the system calls read and change.
#[derive(Clone, Copy, Debug)]
pub struct Task {
    /// Thread id (the kernel's pid).
    pub pid: usize,
    /// Thread group id (the user's pid).
    pub tgid: usize,
    /// Process group id.
    pub pgid: usize,
    /// Thread id of the parent, if the task has one.
    pub parent: Option<usize>,
    pub status: TaskStatus,
    /// Signals delivered and not yet handled.
    pub sigpending: Signals,
    /// Signals blocked from delivery.
    pub sigmask: Signals,
    /// Wait status left for the parent.
    pub exit_code: u32,
    /// Address cleared when the thread exits (`set_tid_address`).
    pub clear_child_tid: usize,
    /// Robust futex list head and length.
    pub robust_head: usize,
    pub robust_len: usize,
    /// Lowest and current end of the heap.
    pub heap_bottom: usize,
    pub heap_pt: usize,
    /// The three interval timers: real, virtual, profiling.
    pub timer_real: ITimerVal,
    pub timer_virtual: ITimerVal,
    pub timer_prof: ITimerVal,
    /// Soft and hard limit on open file descriptors.
    pub fd_soft_limit: usize,
    pub fd_hard_limit: usize,
    /// User and system time consumed, in clock ticks.
    pub utime_ticks: usize,
    pub stime_ticks: usize,
}

/// All tasks, and which of them runs on this hart.
pub struct TaskManager {
    pub tasks: Vec<Task>,
    /// Index in `tasks` of the running task.
    pub current: usize,
    /// Size of a user stack (reported as the stack limit).
    pub user_stack_size: usize,
    /// The system-wide limit on tasks (reported as the process limit).
    pub task_limit: usize,
    /// Largest size the heap of a task may reach.
    pub user_heap_size: usize,
}

/// First index at or after `i` of a task that is not a zombie and whose
/// thread group id is `tgid`.
pub open spec fn find_tgid_from(tasks: Seq<Task>, tgid: usize, i: int) -> Option<int>
    decreases tasks.len() - i,
{
    if i < 0 || i >= tasks.len() {
        None
    } else if tasks[i].status != TaskStatus::Zombie && tasks[i].tgid == tgid {
        Some(i)
    } else {
        find_tgid_from(tasks, tgid, i + 1)
    }
}

/// First index at or after `i` of a task that is not a zombie and whose
/// thread id is `pid`.
pub open spec fn find_pid_from(tasks: Seq<Task>, pid: usize, i: int) -> Option<int>
    decreases tasks.len() - i,
{
    if i < 0 || i >= tasks.len() {
        None
    } else if tasks[i].status != TaskStatus::Zombie && tasks[i].pid == pid {
        Some(i)
    } else {
        find_pid_from(tasks, pid, i + 1)
    }
}

/// First index at or after `i` of any task, zombie or not, whose thread id is
/// `pid`.
pub open spec fn find_any_pid_from(tasks: Seq<Task>, pid: usize, i: int) -> Option<int>
    decreases tasks.len() - i,
{
    if i < 0 || i >= tasks.len() {
        None
    } else if tasks[i].pid == pid {
        Some(i)
    } else {
        find_any_pid_from(tasks, pid, i + 1)
    }
}

/// The live task of thread group `tgid` that a signal or group operation
/// reaches: the first in table order.
pub open spec fn find_by_tgid(tasks: Seq<Task>, tgid: usize) -> Option<int> {
    find_tgid_from(tasks, tgid, 0)
}

/// The live task with thread id `pid`.
pub open spec fn find_by_pid(tasks: Seq<Task>, pid: usize) -> Option<int> {
    find_pid_from(tasks, pid, 0)
}

/// Any task, zombie or not, with thread id `pid`.
pub open spec fn find_any_by_pid(tasks: Seq<Task>, pid: usize) -> Option<int> {
    find_any_pid_from(tasks, pid, 0)
}

pub proof fn lemma_find_tgid_from_bounds(tasks: Seq<Task>, tgid: usize, i: int)
    ensures
        find_tgid_from(tasks, tgid, i) matches Some(j) ==> (i <= j < tasks.len() && 0 <= j
            && tasks[j].tgid == tgid && tasks[j].status != TaskStatus::Zombie),
    decreases tasks.len() - i,
{
    if 0 <= i < tasks.len() {
        lemma_find_tgid_from_bounds(tasks, tgid, i + 1);
    }
}

pub proof fn lemma_find_pid_from_bounds(tasks: Seq<Task>, pid: usize, i: int)
    ensures
        find_pid_from(tasks, pid, i) matches Some(j) ==> (i <= j < tasks.len() && 0 <= j
            && tasks[j].pid == pid && tasks[j].status != TaskStatus::Zombie),
    decreases tasks.len() - i,
{
    if 0 <= i < tasks.len() {
        lemma_find_pid_from_bounds(tasks, pid, i + 1);
    }
}

pub proof fn lemma_find_any_pid_from_bounds(tasks: Seq<Task>, pid: usize, i: int)
    ensures
        find_any_pid_from(tasks, pid, i) matches Some(j) ==> (i <= j < tasks.len() && 0 <= j
            && tasks[j].pid == pid),
    decreases tasks.len() - i,
{
    if 0 <= i < tasks.len() {
        lemma_find_any_pid_from_bounds(tasks, pid, i + 1);
    }
}

/// No two live tasks share a thread id.
pub open spec fn live_pids_unique(tasks: Seq<Task>) -> bool {
    forall|i: int, j: int|
        #![trigger tasks[i], tasks[j]]
        0 <= i < tasks.len() && 0 <= j < tasks.len() && i != j && tasks[i].status
            != TaskStatus::Zombie && tasks[j].status != TaskStatus::Zombie ==> tasks[i].pid
            != tasks[j].pid
}

/// The live task with a thread id that no other live task has is the one
/// the lookup by thread id finds.
pub proof fn lemma_find_unique_pid(tasks: Seq<Task>, c: int, i: int)
    requires
        live_pids_unique(tasks),
        0 <= i <= c < tasks.len(),
        tasks[c].status != TaskStatus::Zombie,
    ensures
        find_pid_from(tasks, tasks[c].pid, i) == Some(c),
    decreases c - i,
{
    if i < c {
        assert(!(tasks[i].status != TaskStatus::Zombie && tasks[i].pid == tasks[c].pid));
        lemma_find_unique_pid(tasks, c, i + 1);
    }
}

impl TaskManager {
    /// The running task is a live task of the table, and no two live tasks
    /// share a thread id.
    pub open spec fn wf(&self) -> bool {
        &&& self.current < self.tasks.len()
        &&& self.tasks@[self.current as int].status != TaskStatus::Zombie
        &&& live_pids_unique(self.tasks@)
    }

    /// The running task.
    pub open spec fn cur(&self) -> Task {
        self.tasks@[self.current as int]
    }

    /// Index of the live task that a signal to thread group `tgid` reaches.
    pub fn find_task_by_tgid(&self, tgid: usize) -> (r: Option<usize>)
        ensures
            r matches Some(i) ==> find_by_tgid(self.tasks@, tgid) == Some(i as int),
            r is None ==> find_by_tgid(self.tasks@, tgid) is None,
    {
        let mut i: usize = 0;
        while i < self.tasks.len()
            invariant
                i <= self.tasks.len(),
                find_tgid_from(self.tasks@, tgid, 0) == find_tgid_from(self.tasks@, tgid, i as int),
            decreases self.tasks.len() - i,
        {
            let t = self.tasks[i];
            if t.status != TaskStatus::Zombie && t.tgid == tgid {
                return Some(i);
            }
            i = i + 1;
        }
        None
    }

    /// Index of the live task with thread id `pid`.
    pub fn find_task_by_pid(&self, pid: usize) -> (r: Option<usize>)
        ensures
            r matches Some(i) ==> find_by_pid(self.tasks@, pid) == Some(i as int),
            r is None ==> find_by_pid(self.tasks@, pid) is None,
    {
        let mut i: usize = 0;
        while i < self.tasks.len()
            invariant
                i <= self.tasks.len(),
                find_pid_from(self.tasks@, pid, 0) == find_pid_from(self.tasks@, pid, i as int),
            decreases self.tasks.len() - i,
        {
            let t = self.tasks[i];
            if t.status != TaskStatus::Zombie && t.pid == pid {
                return Some(i);
            }
            i = i + 1;
        }
        None
    }

    /// Index of any task, zombie or not, with thread id `pid`.
    pub fn find_any_task_by_pid(&self, pid: usize) -> (r: Option<usize>)
        ensures
            r matches Some(i) ==> find_any_by_pid(self.tasks@, pid) == Some(i as int),
            r is None ==> find_any_by_pid(self.tasks@, pid) is None,
    {
        let mut i: usize = 0;
        while i < self.tasks.len()
            invariant
                i <= self.tasks.len(),
                find_any_pid_from(self.tasks@, pid, 0) == find_any_pid_from(
                    self.tasks@,
                    pid,
                    i as int,
                ),
            decreases self.tasks.len() - i,
        {
            if self.tasks[i].pid == pid {
                return Some(i);
            }
            i = i + 1;
        }
        None
    }

    /// Number of tasks in the table.
    pub fn procs_count(&self) -> (n: usize)
        ensures
            n == self.tasks.len(),
    {
        self.tasks.len()
    }
}

} // verus!
