//! `prlimit`: resource limits of the calling process.
use vstd::prelude::*;
use crate::errno::{SUCCESS, EINVAL, EFAULT};
use crate::task::{Task, TaskManager};
use crate::process::same_config;

verus! {

/// A soft and a hard limit.
#[derive(Clone, Copy, Debug, PartialEq, Eq)]
pub struct RLimit {
    pub rlim_cur: usize,
    pub rlim_max: usize,
}

/// Resources a limit can be asked for; numbers outside 0..=16 are `ILLEAGAL`.
#[allow(non_camel_case_types)]
#[derive(Clone, Copy, Debug, PartialEq, Eq, Structural)]
pub enum Resource {
    CPU,
    FSIZE,
    DATA,
    STACK,
    CORE,
    RSS,
    NPROC,
    NOFILE,
    MEMLOCK,
    AS,
    LOCKS,
    SIGPENDING,
    MSGQUEUE,
    NICE,
    RTPRIO,
    RTTIME,
    NLIMITS,
    ILLEAGAL,
}

/// The resource numbered `v`.
pub open spec fn resource_of(v: u32) -> Resource {
    if v == 0 {
        Resource::CPU
    } else if v == 1 {
        Resource::FSIZE
    } else if v == 2 {
        Resource::DATA
    } else if v == 3 {
        Resource::STACK
    } else if v == 4 {
        Resource::CORE
    } else if v == 5 {
        Resource::RSS
    } else if v == 6 {
        Resource::NPROC
    } else if v == 7 {
        Resource::NOFILE
    } else if v == 8 {
        Resource::MEMLOCK
    } else if v == 9 {
        Resource::AS
    } else if v == 10 {
        Resource::LOCKS
    } else if v == 11 {
        Resource::SIGPENDING
    } else if v == 12 {
        Resource::MSGQUEUE
    } else if v == 13 {
        Resource::NICE
    } else if v == 14 {
        Resource::RTPRIO
    } else if v == 15 {
        Resource::RTTIME
    } else if v == 16 {
        Resource::NLIMITS
    } else {
        Resource::ILLEAGAL
    }
}

impl Resource {
    /// The resource numbered `v`; unknown numbers give `ILLEAGAL`.
    pub fn from_primitive(v: u32) -> (r: Resource)
        ensures
            r == resource_of(v),
    {
        match v {
            0 => Resource::CPU,
            1 => Resource::FSIZE,
            2 => Resource::DATA,
            3 => Resource::STACK,
            4 => Resource::CORE,
            5 => Resource::RSS,
            6 => Resource::NPROC,
            7 => Resource::NOFILE,
            8 => Resource::MEMLOCK,
            9 => Resource::AS,
            10 => Resource::LOCKS,
            11 => Resource::SIGPENDING,
            12 => Resource::MSGQUEUE,
            13 => Resource::NICE,
            14 => Resource::RTPRIO,
            15 => Resource::RTTIME,
            16 => Resource::NLIMITS,
            _ => Resource::ILLEAGAL,
        }
    }
}

/// The current limit the kernel reports for a resource of the calling task:
/// the stack size, the task limit, or the descriptor limits; other resources
/// have none.
pub open spec fn reported_limit(tm: &TaskManager, r: Resource) -> Option<RLimit> {
    if r == Resource::STACK {
        Some(RLimit { rlim_cur: tm.user_stack_size, rlim_max: tm.user_stack_size })
    } else if r == Resource::NPROC {
        Some(RLimit { rlim_cur: tm.task_limit, rlim_max: tm.task_limit })
    } else if r == Resource::NOFILE {
        Some(RLimit { rlim_cur: tm.cur().fd_soft_limit, rlim_max: tm.cur().fd_hard_limit })
    } else {
        None
    }
}

/// What `prlimit` answers: the return value and the old limit to store at the
/// old-limit address, when one was read.
#[derive(Clone, Copy, Debug, PartialEq, Eq)]
pub struct PrlimitReply {
    pub ret: isize,
    pub old: Option<RLimit>,
}

/// Gets and sets limits of the calling process (`pid` must be 0, else EINVAL).
/// Only the stack, process-count and open-file limits are served; any other
/// resource is EINVAL whatever the addresses. The caller says whether the
/// old-limit address is null and whether storing the old limit there
/// succeeded, and passes the new limit read from user space (`Some(None)`
/// when that read failed, `None` when the address is null). A failed copy is
/// EFAULT; only the open-file limits can be set, a stack limit may be passed
/// but not above the stack size, and a process-count limit is EINVAL.
pub fn sys_prlimit(
    tm: &mut TaskManager,
    pid: usize,
    resource: u32,
    old_limit_null: bool,
    old_copy_ok: bool,
    new_limit: Option<Option<RLimit>>,
) -> (r: PrlimitReply)
    requires
        old(tm).wf(),
        match new_limit {
            Some(Some(l)) => pid == 0 && resource_of(resource) == Resource::STACK && (old_limit_null
                || old_copy_ok) ==> l.rlim_cur <= old(tm).user_stack_size,
            _ => true,
        },
    ensures
        same_config(final(tm), old(tm)),
        ({
            let res = resource_of(resource);
            let old_v = reported_limit(old(tm), res);
            let served = pid == 0 && old_v is Some;
            let old_fails = !old_limit_null && !old_copy_ok;
            &&& pid != 0 ==> r == (PrlimitReply { ret: EINVAL, old: None })
            &&& pid == 0 && old_v is None ==> r == (PrlimitReply { ret: EINVAL, old: None })
            &&& served && old_fails ==> r == (PrlimitReply { ret: EFAULT, old: old_v })
            &&& served && !old_fails ==> r.old == (if old_limit_null {
                None
            } else {
                old_v
            })
            &&& served && !old_fails ==> r.ret == match new_limit {
                None => SUCCESS,
                Some(None) => EFAULT,
                Some(Some(l)) => if res == Resource::NOFILE || res == Resource::STACK {
                    SUCCESS
                } else {
                    EINVAL
                },
            }
            &&& match new_limit {
                Some(Some(l)) => if served && !old_fails && res == Resource::NOFILE {
                    final(tm).tasks@ == old(tm).tasks@.update(
                        old(tm).current as int,
                        Task { fd_soft_limit: l.rlim_cur, fd_hard_limit: l.rlim_max, ..old(tm).cur() },
                    )
                } else {
                    final(tm).tasks@ == old(tm).tasks@
                },
                _ => final(tm).tasks@ == old(tm).tasks@,
            }
        }),
{
    if pid != 0 {
        return PrlimitReply { ret: EINVAL, old: None };
    }
    let res = Resource::from_primitive(resource);
    let v = match res {
        Resource::STACK => RLimit { rlim_cur: tm.user_stack_size, rlim_max: tm.user_stack_size },
        Resource::NPROC => RLimit { rlim_cur: tm.task_limit, rlim_max: tm.task_limit },
        Resource::NOFILE => {
            let t = tm.tasks[tm.current];
            RLimit { rlim_cur: t.fd_soft_limit, rlim_max: t.fd_hard_limit }
        },
        _ => return PrlimitReply { ret: EINVAL, old: None },
    };
    let mut old_v: Option<RLimit> = None;
    if !old_limit_null {
        if !old_copy_ok {
            return PrlimitReply { ret: EFAULT, old: Some(v) };
        }
        old_v = Some(v);
    }
    match new_limit {
        None => PrlimitReply { ret: SUCCESS, old: old_v },
        Some(None) => PrlimitReply { ret: EFAULT, old: old_v },
        Some(Some(l)) => match res {
            Resource::NOFILE => {
                let mut t = tm.tasks[tm.current];
                t.fd_soft_limit = l.rlim_cur;
                t.fd_hard_limit = l.rlim_max;
                tm.tasks.set(tm.current, t);
                PrlimitReply { ret: SUCCESS, old: old_v }
            },
            Resource::STACK => PrlimitReply { ret: SUCCESS, old: old_v },
            _ => PrlimitReply { ret: EINVAL, old: old_v },
        },
    }
}

/// Reading the open-file limits after `prlimit` has set them gives back the
/// limits that were set.
pub proof fn law_prlimit_set_then_get(before: &TaskManager, after: &TaskManager, l: RLimit)
    requires
        before.wf(),
        after.current == before.current,
        after.tasks@ == before.tasks@.update(
            before.current as int,
            Task { fd_soft_limit: l.rlim_cur, fd_hard_limit: l.rlim_max, ..before.cur() },
        ),
    ensures
        reported_limit(after, Resource::NOFILE) == Some(l),
{
}

/// `getrlimit` accepts any request and reports success without writing.
pub fn sys_getrlimit(_resource: usize) -> (r: isize)
    ensures
        r == SUCCESS,
{
    SUCCESS
}

/// `setrlimit` accepts any request and reports success without changing
/// anything.
pub fn sys_setrlimit(_resource: usize) -> (r: isize)
    ensures
        r == SUCCESS,
{
    SUCCESS
}

} // verus!
