//! /dev/urandom: reads deliver bytes of the kernel generator, writes are
//! taken and dropped.
use vstd::prelude::*;
use crate::errno::{EINVAL, ENOTDIR, ESPIPE};
use crate::random::{Rng, fill_byte, state_after, chunks_of};
use crate::stat::{DevNum, Stat, DiskInodeType, S_IFCHR};

verus! {

pub struct Urandom;

impl Urandom {
    pub fn deep_clone(&self) -> (f: Urandom) {
        Urandom
    }

    pub fn readable(&self) -> (b: bool)
        ensures
            b,
    {
        true
    }

    pub fn writable(&self) -> (b: bool)
        ensures
            b,
    {
        true
    }

    /// Fills the whole buffer from the generator and returns its length.
    pub fn read(&self, rng: &mut Rng, buf: &mut [u8]) -> (n: usize)
        ensures
            n == old(buf)@.len(),
            final(buf)@.len() == old(buf)@.len(),
            forall|j: int|
                0 <= j < old(buf)@.len() ==> #[trigger] final(buf)@[j] == fill_byte(
                    old(rng).state,
                    j as nat,
                ),
            final(rng).state == state_after(old(rng).state, chunks_of(old(buf)@.len() as nat)),
    {
        rng.fill_bytes(buf);
        buf.len()
    }

    /// Takes the whole buffer.
    pub fn write(&self, buf: &[u8]) -> (n: usize)
        ensures
            n == buf@.len(),
    {
        buf.len()
    }

    pub fn r_ready(&self) -> (b: bool)
        ensures
            b,
    {
        true
    }

    pub fn w_ready(&self) -> (b: bool)
        ensures
            b,
    {
        true
    }

    pub fn get_size(&self) -> (n: usize)
        ensures
            n == 0,
    {
        0
    }

    /// A character device 1:5, readable and writable by all.
    pub fn get_stat(&self) -> (st: Stat)
        ensures
            st == (Stat {
                st_dev: DevNum { major: 0, minor: 5 },
                st_ino: 1,
                st_mode: S_IFCHR | 0o666,
                st_nlink: 1,
                st_rdev: DevNum { major: 1, minor: 5 },
                st_size: 0,
                st_atime_sec: 0,
                st_mtime_sec: 0,
                st_ctime_sec: 0,
            }),
    {
        Stat {
            st_dev: DevNum { major: 0, minor: 5 },
            st_ino: 1,
            st_mode: S_IFCHR | 0o666,
            st_nlink: 1,
            st_rdev: DevNum { major: 1, minor: 5 },
            st_size: 0,
            st_atime_sec: 0,
            st_mtime_sec: 0,
            st_ctime_sec: 0,
        }
    }

    /// The bytes a read into a user buffer of `buf_len` bytes delivers: that
    /// many bytes of the generator.
    pub fn read_user(&self, rng: &mut Rng, buf_len: usize) -> (out: Vec<u8>)
        ensures
            out@.len() == buf_len,
            forall|j: int|
                0 <= j < buf_len ==> #[trigger] out@[j] == fill_byte(old(rng).state, j as nat),
            final(rng).state == state_after(old(rng).state, chunks_of(buf_len as nat)),
    {
        let mut tmp: Vec<u8> = vec![0u8; buf_len];
        rng.fill_bytes(tmp.as_mut_slice());
        tmp
    }

    /// Writing from a user buffer takes the whole buffer.
    pub fn write_user(&self, _offset: Option<usize>, buf_len: usize) -> (n: usize)
        ensures
            n == buf_len,
    {
        buf_len
    }

    pub fn get_file_type(&self) -> (t: DiskInodeType)
        ensures
            t == DiskInodeType::File,
    {
        DiskInodeType::File
    }

    pub fn open(&self, _flags: u32, _special_use: bool) -> (f: Urandom) {
        Urandom
    }

    pub fn open_subfile(&self) -> (r: Result<(), isize>)
        ensures
            r == Err::<(), isize>(ENOTDIR),
    {
        Err(ENOTDIR)
    }

    pub fn create(&self, _name: &str, _file_type: DiskInodeType) -> (r: Result<(), isize>)
        ensures
            r == Err::<(), isize>(EINVAL),
    {
        Err(EINVAL)
    }

    pub fn link_child(&self, _name: &str) -> (r: Result<(), isize>)
        ensures
            r == Err::<(), isize>(EINVAL),
    {
        Err(EINVAL)
    }

    pub fn unlink(&self, _delete: bool) -> (r: Result<(), isize>)
        ensures
            r == Err::<(), isize>(EINVAL),
    {
        Err(EINVAL)
    }

    pub fn lseek(&self, _offset: isize) -> (r: Result<usize, isize>)
        ensures
            r == Err::<usize, isize>(ESPIPE),
    {
        Err(ESPIPE)
    }

    pub fn modify_size(&self, _diff: isize) -> (r: Result<(), isize>)
        ensures
            r == Ok::<(), isize>(()),
    {
        Ok(())
    }

    pub fn truncate_size(&self, _new_size: usize) -> (r: Result<(), isize>)
        ensures
            r == Err::<(), isize>(EINVAL),
    {
        Err(EINVAL)
    }

    pub fn oom(&self) -> (n: usize)
        ensures
            n == 0,
    {
        0
    }

    pub fn hang_up(&self) -> (b: bool)
        ensures
            !b,
    {
        false
    }

    pub fn fcntl(&self, _cmd: u32, _arg: u32) -> (r: isize)
        ensures
            r == EINVAL,
    {
        EINVAL
    }
}

} // verus!
