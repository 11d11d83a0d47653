//! Harts and the per-hart processors: which task each hart runs, and the
//! decisions of the scheduling loop.
use vstd::prelude::*;
use crate::task::{Task, TaskManager, TaskStatus};

verus! {

/// Most harts the kernel runs on.
pub const MAX_HARTS: usize = 8;

/// The hart id from the `tp` register: an id beyond the last hart means the
/// firmware did not set it, and the boot hart (0) is assumed.
pub fn hart_id(tp: usize) -> (id: usize)
    ensures
        id == if tp < MAX_HARTS { tp } else { 0 },
        id < MAX_HARTS,
{
    if tp < MAX_HARTS {
        tp
    } else {
        0
    }
}

/// Whether this is the boot hart.
pub fn is_boot_hart(tp: usize) -> (b: bool)
    ensures
        b == (tp == 0 || tp >= MAX_HARTS),
{
    hart_id(tp) == 0
}

/// Machine setup that has nothing to do on this board.
pub fn bootstrap_init() {
}

/// Saved callee registers of a task switch.
#[derive(Clone, Copy, Debug, PartialEq, Eq)]
pub struct TaskContext {
    pub ra: usize,
    pub sp: usize,
    pub s: [usize; 12],
}

impl TaskContext {
    /// All registers zero.
    pub fn zero_init() -> (c: TaskContext)
        ensures
            c.ra == 0,
            c.sp == 0,
            forall|i: int| 0 <= i < 12 ==> c.s[i] == 0,
    {
        TaskContext { ra: 0, sp: 0, s: [0usize; 12] }
    }
}

/// One hart's processor: the task it runs (its index in the task table) and
/// the context of its idle loop.
#[derive(Clone, Copy, Debug)]
pub struct Processor {
    pub current: Option<usize>,
    pub idle_task_cx: TaskContext,
}

impl Processor {
    /// A processor running nothing.
    pub fn new() -> (p: Processor)
        ensures
            p.current is None,
            p.idle_task_cx.ra == 0 && p.idle_task_cx.sp == 0,
            forall|i: int| 0 <= i < 12 ==> p.idle_task_cx.s[i] == 0,
    {
        Processor { current: None, idle_task_cx: TaskContext::zero_init() }
    }

    /// Takes the running task away: returns it and leaves none.
    pub fn take_current(&mut self) -> (t: Option<usize>)
        ensures
            t == old(self).current,
            final(self).current is None,
            final(self).idle_task_cx == old(self).idle_task_cx,
    {
        let t = self.current;
        self.current = None;
        t
    }

    /// The running task.
    pub fn current(&self) -> (t: Option<usize>)
        ensures
            t == self.current,
    {
        self.current
    }
}

/// One processor per hart.
pub struct Processors {
    pub harts: Vec<Processor>,
}

impl Processors {
    /// There is a processor for every hart.
    pub open spec fn wf(&self) -> bool {
        self.harts@.len() == MAX_HARTS
    }

    /// Eight idle processors.
    pub fn new() -> (p: Processors)
        ensures
            p.wf(),
            forall|i: int| 0 <= i < MAX_HARTS ==> #[trigger] p.harts@[i].current is None,
    {
        let mut harts: Vec<Processor> = Vec::new();
        let mut i: usize = 0;
        while i < MAX_HARTS
            invariant
                i <= MAX_HARTS,
                harts@.len() == i,
                forall|k: int| 0 <= k < i ==> #[trigger] harts@[k].current is None,
            decreases MAX_HARTS - i,
        {
            harts.push(Processor::new());
            i = i + 1;
        }
        Processors { harts }
    }
}

/// Takes the running task away from hart `hart`.
pub fn take_current_task(ps: &mut Processors, hart: usize) -> (t: Option<usize>)
    requires
        old(ps).wf(),
        hart < MAX_HARTS,
    ensures
        final(ps).wf(),
        t == old(ps).harts@[hart as int].current,
        final(ps).harts@ == old(ps).harts@.update(
            hart as int,
            Processor { current: None, ..old(ps).harts@[hart as int] },
        ),
{
    let mut p = ps.harts[hart];
    let t = p.take_current();
    ps.harts.set(hart, p);
    t
}

/// The task hart `hart` runs.
pub fn current_task(ps: &Processors, hart: usize) -> (t: Option<usize>)
    requires
        ps.wf(),
        hart < MAX_HARTS,
    ensures
        t == ps.harts@[hart as int].current,
{
    ps.harts[hart].current()
}

/// What one turn of a hart's scheduling loop does.
#[derive(Clone, Copy, Debug, PartialEq, Eq)]
pub enum RunAction {
    /// Switch from the idle context to the task.
    Switch(usize),
    /// Nothing to run: wake expired sleepers and try again (the boot hart).
    WakeExpired,
    /// Nothing to run: wake expired sleepers, then wait for an interrupt.
    WakeExpiredAndWait,
}

/// One turn of `run_tasks` on hart `hart`, given the task the ready queue
/// handed out, if any: that task is marked running and becomes the hart's
/// current task, and the hart switches to it; with none, the boot hart wakes
/// expired sleepers and the others also wait for an interrupt.
pub fn run_tasks_step(ps: &mut Processors, tm: &mut TaskManager, hart: usize, fetched: Option<usize>) -> (a:
    RunAction)
    requires
        old(ps).wf(),
        hart < MAX_HARTS,
        fetched matches Some(i) ==> i < old(tm).tasks@.len(),
    ensures
        final(ps).wf(),
        final(tm).current == old(tm).current,
        match fetched {
            Some(i) => a == RunAction::Switch(i) && final(ps).harts@ == old(ps).harts@.update(
                hart as int,
                Processor { current: Some(i), ..old(ps).harts@[hart as int] },
            ) && final(tm).tasks@ == old(tm).tasks@.update(
                i as int,
                Task { status: TaskStatus::Running, ..old(tm).tasks@[i as int] },
            ),
            None => a == (if hart == 0 {
                RunAction::WakeExpired
            } else {
                RunAction::WakeExpiredAndWait
            }) && final(ps).harts@ == old(ps).harts@ && final(tm).tasks@ == old(tm).tasks@,
        },
{
    match fetched {
        Some(i) => {
            let mut t = tm.tasks[i];
            t.status = TaskStatus::Running;
            tm.tasks.set(i, t);
            let mut p = ps.harts[hart];
            p.current = Some(i);
            ps.harts.set(hart, p);
            RunAction::Switch(i)
        },
        None => {
            if hart == 0 {
                RunAction::WakeExpired
            } else {
                RunAction::WakeExpiredAndWait
            }
        },
    }
}

} // verus!
