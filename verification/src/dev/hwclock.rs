//! /dev/hwclock (/dev/rtc): a character device that reads nothing and
//! accepts every write.
use vstd::prelude::*;
use crate::errno::{EINVAL, ENOTDIR, ESPIPE, SUCCESS};
use crate::stat::{DevNum, Stat, DiskInodeType, S_IFCHR};

verus! {

pub struct Hwclock;

impl Hwclock {
    pub fn deep_clone(&self) -> (f: Hwclock) {
        Hwclock
    }

    pub fn readable(&self) -> (b: bool)
        ensures
            b,
    {
        true
    }

    pub fn writable(&self) -> (b: bool)
        ensures
            !b,
    {
        false
    }

    /// Reads nothing.
    pub fn read(&self, _buf: &mut [u8]) -> (n: usize)
        ensures
            n == 0,
    {
        0
    }

    /// Writes nothing.
    pub fn write(&self, _buf: &[u8]) -> (n: usize)
        ensures
            n == 0,
    {
        0
    }

    pub fn r_ready(&self) -> (b: bool)
        ensures
            b,
    {
        true
    }

    pub fn w_ready(&self) -> (b: bool)
        ensures
            !b,
    {
        false
    }

    /// Reading into a user buffer delivers nothing.
    pub fn read_user(&self, _offset: Option<usize>, _buf_len: usize) -> (n: usize)
        ensures
            n == 0,
    {
        0
    }

    /// Writing from a user buffer takes the whole buffer.
    pub fn write_user(&self, _offset: Option<usize>, buf_len: usize) -> (n: usize)
        ensures
            n == buf_len,
    {
        buf_len
    }

    pub fn get_size(&self) -> (n: usize)
        ensures
            n == 0,
    {
        0
    }

    /// A character device 10:135, readable and writable by all.
    pub fn get_stat(&self) -> (st: Stat)
        ensures
            st == (Stat {
                st_dev: DevNum { major: 0, minor: 5 },
                st_ino: 1,
                st_mode: S_IFCHR | 0o666,
                st_nlink: 1,
                st_rdev: DevNum { major: 10, minor: 135 },
                st_size: 0,
                st_atime_sec: 0,
                st_mtime_sec: 0,
                st_ctime_sec: 0,
            }),
    {
        Stat {
            st_dev: DevNum { major: 0, minor: 5 },
            st_ino: 1,
            st_mode: S_IFCHR | 0o666,
            st_nlink: 1,
            st_rdev: DevNum { major: 10, minor: 135 },
            st_size: 0,
            st_atime_sec: 0,
            st_mtime_sec: 0,
            st_ctime_sec: 0,
        }
    }

    pub fn get_file_type(&self) -> (t: DiskInodeType)
        ensures
            t == DiskInodeType::File,
    {
        DiskInodeType::File
    }

    pub fn open(&self, _flags: u32, _special_use: bool) -> (f: Hwclock) {
        Hwclock
    }

    pub fn open_subfile(&self) -> (r: Result<(), isize>)
        ensures
            r == Err::<(), isize>(ENOTDIR),
    {
        Err(ENOTDIR)
    }

    pub fn create(&self, _name: &str, _file_type: DiskInodeType) -> (r: Result<(), isize>)
        ensures
            r == Err::<(), isize>(EINVAL),
    {
        Err(EINVAL)
    }

    pub fn link_child(&self, _name: &str) -> (r: Result<(), isize>)
        ensures
            r == Err::<(), isize>(EINVAL),
    {
        Err(EINVAL)
    }

    pub fn unlink(&self, _delete: bool) -> (r: Result<(), isize>)
        ensures
            r == Err::<(), isize>(EINVAL),
    {
        Err(EINVAL)
    }

    /// Not seekable.
    pub fn lseek(&self, _offset: isize) -> (r: Result<usize, isize>)
        ensures
            r == Err::<usize, isize>(ESPIPE),
    {
        Err(ESPIPE)
    }

    pub fn modify_size(&self, _diff: isize) -> (r: Result<(), isize>)
        ensures
            r == Ok::<(), isize>(()),
    {
        Ok(())
    }

    pub fn truncate_size(&self, _new_size: usize) -> (r: Result<(), isize>)
        ensures
            r == Err::<(), isize>(EINVAL),
    {
        Err(EINVAL)
    }

    pub fn oom(&self) -> (n: usize)
        ensures
            n == 0,
    {
        0
    }

    pub fn hang_up(&self) -> (b: bool)
        ensures
            !b,
    {
        false
    }

    pub fn fcntl(&self, _cmd: u32, _arg: u32) -> (r: isize)
        ensures
            r == EINVAL,
    {
        EINVAL
    }

    /// Every control request succeeds.
    pub fn ioctl(&self, _cmd: u32, _argp: usize) -> (r: isize)
        ensures
            r == SUCCESS,
    {
        SUCCESS
    }
}

} // verus!
