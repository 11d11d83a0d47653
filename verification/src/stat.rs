//! File status as device files report it.
use vstd::prelude::*;

verus! {

/// A device number, as major and minor parts.
#[derive(Clone, Copy, Debug, PartialEq, Eq)]
pub struct DevNum {
    pub major: u32,
    pub minor: u32,
}

/// The device number with the given parts (`makedev!`).
pub fn makedev(major: u32, minor: u32) -> (d: DevNum)
    ensures
        d.major == major,
        d.minor == minor,
{
    DevNum { major, minor }
}

/// File type bits of `st_mode`.
pub const S_IFSOCK: u32 = 0o140000;
pub const S_IFREG: u32 = 0o100000;
pub const S_IFCHR: u32 = 0o020000;

/// The status fields a file reports.
#[derive(Clone, Copy, Debug, PartialEq, Eq)]
pub struct Stat {
    pub st_dev: DevNum,
    pub st_ino: u64,
    pub st_mode: u32,
    pub st_nlink: u32,
    pub st_rdev: DevNum,
    pub st_size: i64,
    pub st_atime_sec: i64,
    pub st_mtime_sec: i64,
    pub st_ctime_sec: i64,
}

/// What kind of inode a file is.
#[derive(Clone, Copy, Debug, PartialEq, Eq)]
pub enum DiskInodeType {
    File,
    Directory,
}

/// Where `lseek` counts from: the start, the current offset, or the end.
#[derive(Clone, Copy, Debug, PartialEq, Eq)]
pub enum SeekWhence {
    Start,
    Current,
    End,
}

} // verus!
