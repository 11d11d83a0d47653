//! timerfd: a file that counts timer expirations and hands the count to
//! readers.
use vstd::prelude::*;
use crate::errno::{EINVAL, ENOTDIR, ESPIPE};
use crate::random::le_byte;
use crate::stat::{DevNum, DiskInodeType, Stat, S_IFCHR};
use crate::time::TimeSpec;

verus! {

/// A timer file: expirations since the last read, and whether it was set.
pub struct TimerFd {
    pub expirations: u64,
    pub armed: bool,
}

impl TimerFd {
    /// An unset timer with no expirations.
    pub fn new() -> (t: TimerFd)
        ensures
            t.expirations == 0,
            !t.armed,
    {
        TimerFd { expirations: 0, armed: false }
    }

    /// Setting the timer arms it; the time values are not kept.
    pub fn set_time(&mut self, _flags: u32, _new_value: &TimeSpec)
        ensures
            final(self).armed,
            final(self).expirations == old(self).expirations,
    {
        self.armed = true;
    }

    /// The time left is reported as zero.
    pub fn get_time(&self, curr_value: &mut TimeSpec)
        ensures
            final(curr_value).tv_sec == 0,
            final(curr_value).tv_nsec == 0,
    {
        curr_value.tv_sec = 0;
        curr_value.tv_nsec = 0;
    }

    /// Readable once the timer has expired since the last read.
    pub fn is_ready(&self) -> (b: bool)
        ensures
            b == (self.expirations > 0),
    {
        self.expirations > 0
    }

    /// Hands out the count and starts it again from zero.
    fn read_expirations(&mut self) -> (v: u64)
        ensures
            v == old(self).expirations,
            final(self).expirations == 0,
            final(self).armed == old(self).armed,
    {
        let v = self.expirations;
        self.expirations = 0;
        v
    }

    /// Copies the little-endian bytes of the count into `buf`, as many as fit
    /// (at most eight), and starts the count again.
    pub fn read(&mut self, buf: &mut [u8]) -> (n: usize)
        ensures
            n == if old(buf)@.len() < 8 {
                old(buf)@.len()
            } else {
                8
            },
            final(buf)@.len() == old(buf)@.len(),
            forall|k: int| 0 <= k < n ==> #[trigger] final(buf)@[k] == le_byte(old(self).expirations, k as nat),
            forall|k: int| n <= k < old(buf)@.len() ==> #[trigger] final(buf)@[k] == old(buf)@[k],
            final(self).expirations == 0,
            final(self).armed == old(self).armed,
    {
        let val = self.read_expirations();
        let len = if buf.len() < 8 {
            buf.len()
        } else {
            8
        };
        let mut k: usize = 0;
        while k < len
            invariant
                k <= len,
                len <= 8,
                len <= buf@.len(),
                buf@.len() == old(buf)@.len(),
                forall|j: int| 0 <= j < k ==> #[trigger] buf@[j] == le_byte(val, j as nat),
                forall|j: int| k <= j < buf@.len() ==> #[trigger] buf@[j] == old(buf)@[j],
            decreases len - k,
        {
            buf[k] = ((val >> ((8 * k) as u64)) & 0xff) as u8;
            k = k + 1;
        }
        len
    }

    /// Writing is refused.
    pub fn write(&self, _buf: &[u8]) -> (n: usize)
        ensures
            n == 0,
    {
        0
    }

    pub fn r_ready(&self) -> (b: bool)
        ensures
            b == (self.expirations > 0),
    {
        self.is_ready()
    }

    pub fn w_ready(&self) -> (b: bool)
        ensures
            !b,
    {
        false
    }

    /// A copy is a new, unset timer.
    pub fn deep_clone(&self) -> (t: TimerFd)
        ensures
            t.expirations == 0,
            !t.armed,
    {
        TimerFd::new()
    }

    pub fn readable(&self) -> (b: bool)
        ensures
            b,
    {
        true
    }

    pub fn writable(&self) -> (b: bool)
        ensures
            !b,
    {
        false
    }

    /// The bytes a read into a user buffer of `buf_len` bytes delivers: the
    /// little-endian bytes of the count, as many as fit (at most eight); the
    /// count starts again.
    pub fn read_user(&mut self, buf_len: usize) -> (out: Vec<u8>)
        ensures
            out@.len() == if buf_len < 8 {
                buf_len
            } else {
                8
            },
            forall|k: int| 0 <= k < out@.len() ==> #[trigger] out@[k] == le_byte(old(self).expirations, k as nat),
            final(self).expirations == 0,
            final(self).armed == old(self).armed,
    {
        let len = if buf_len < 8 {
            buf_len
        } else {
            8
        };
        let mut out: Vec<u8> = vec![0u8; len];
        let n = self.read(out.as_mut_slice());
        assert(n == out@.len());
        out
    }

    /// Writing from a user buffer is refused.
    pub fn write_user(&self, _offset: Option<usize>, _buf_len: usize) -> (n: usize)
        ensures
            n == 0,
    {
        0
    }

    pub fn get_size(&self) -> (n: usize)
        ensures
            n == 0,
    {
        0
    }

    /// A character device on 0:14, readable by all.
    pub fn get_stat(&self) -> (st: Stat)
        ensures
            st == (Stat {
                st_dev: DevNum { major: 0, minor: 14 },
                st_ino: 1,
                st_mode: S_IFCHR | 0o444,
                st_nlink: 1,
                st_rdev: DevNum { major: 0, minor: 0 },
                st_size: 0,
                st_atime_sec: 0,
                st_mtime_sec: 0,
                st_ctime_sec: 0,
            }),
    {
        Stat {
            st_dev: DevNum { major: 0, minor: 14 },
            st_ino: 1,
            st_mode: S_IFCHR | 0o444,
            st_nlink: 1,
            st_rdev: DevNum { major: 0, minor: 0 },
            st_size: 0,
            st_atime_sec: 0,
            st_mtime_sec: 0,
            st_ctime_sec: 0,
        }
    }

    pub fn get_file_type(&self) -> (t: DiskInodeType)
        ensures
            t == DiskInodeType::File,
    {
        DiskInodeType::File
    }

    /// Opening gives a new, unset timer.
    pub fn open(&self, _flags: u32, _special_use: bool) -> (t: TimerFd)
        ensures
            t.expirations == 0,
            !t.armed,
    {
        TimerFd::new()
    }

    pub fn open_subfile(&self) -> (r: Result<(), isize>)
        ensures
            r == Err::<(), isize>(ENOTDIR),
    {
        Err(ENOTDIR)
    }

    pub fn create(&self, _name: &str, _file_type: DiskInodeType) -> (r: Result<(), isize>)
        ensures
            r == Err::<(), isize>(EINVAL),
    {
        Err(EINVAL)
    }

    pub fn link_child(&self, _name: &str) -> (r: Result<(), isize>)
        ensures
            r == Err::<(), isize>(EINVAL),
    {
        Err(EINVAL)
    }

    pub fn unlink(&self, _delete: bool) -> (r: Result<(), isize>)
        ensures
            r == Err::<(), isize>(EINVAL),
    {
        Err(EINVAL)
    }

    pub fn lseek(&self, _offset: isize) -> (r: Result<usize, isize>)
        ensures
            r == Err::<usize, isize>(ESPIPE),
    {
        Err(ESPIPE)
    }

    pub fn modify_size(&self, _diff: isize) -> (r: Result<(), isize>)
        ensures
            r is Ok,
    {
        Ok(())
    }

    pub fn truncate_size(&self, _new_size: usize) -> (r: Result<(), isize>)
        ensures
            r == Err::<(), isize>(EINVAL),
    {
        Err(EINVAL)
    }

    pub fn oom(&self) -> (n: usize)
        ensures
            n == 0,
    {
        0
    }

    pub fn hang_up(&self) -> (b: bool)
        ensures
            !b,
    {
        false
    }

    pub fn fcntl(&self, _cmd: u32, _arg: u32) -> (r: isize)
        ensures
            r == EINVAL,
    {
        EINVAL
    }
}

} // verus!
