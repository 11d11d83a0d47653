//! Error numbers returned by system calls (negated Linux errno values).
use vstd::prelude::*;

verus! {

pub const SUCCESS: isize = 0;
pub const EPERM: isize = -1;
pub const ESRCH: isize = -3;
pub const EINTR: isize = -4;
pub const ENOEXEC: isize = -8;
pub const EBADF: isize = -9;
pub const ECHILD: isize = -10;
pub const EFAULT: isize = -14;
pub const ENOTDIR: isize = -20;
pub const EINVAL: isize = -22;
pub const EMFILE: isize = -24;
pub const ENOTTY: isize = -25;
pub const ESPIPE: isize = -29;
pub const EPIPE: isize = -32;
pub const ENOSYS: isize = -38;
pub const EOPNOTSUPP: isize = -95;
pub const EAFNOSUPPORT: isize = -97;
pub const EINPROGRESS: isize = -115;

} // verus!
