//! The short /proc/meminfo device: total, free and available memory.
use vstd::prelude::*;
use crate::errno::{EINVAL, ENOTDIR, ESPIPE};
use crate::fmt::{dec_digits, right_align, push_right_aligned};
use crate::meminfo_labels::{meminfo_labels, meminfo_label_table};
use crate::procfs::MeminfoSource;
use crate::stat::{DevNum, Stat, DiskInodeType, S_IFREG};

verus! {

/// The numbers can be computed without overflow.
pub open spec fn short_source_ok(s: MeminfoSource) -> bool {
    s.free_frames * s.page_size <= usize::MAX
}

/// Total, free and available memory in kB, then cached (always 0).
pub open spec fn short_values(s: MeminfoSource) -> Seq<nat> {
    let free_kb = (s.free_frames * s.page_size / 1024) as nat;
    seq![(s.memory_size / 1024) as nat, free_kb, free_kb, 0]
}

/// The label of line `i`: MemTotal, MemFree, MemAvailable, Cached.
pub open spec fn short_label(i: int) -> int {
    if i == 3 {
        4
    } else {
        i
    }
}

/// Line `i`: label, value right-aligned in eight bytes, " kB", newline.
pub open spec fn short_line(s: MeminfoSource, i: int) -> Seq<u8> {
    meminfo_labels().subrange(16 * short_label(i), 16 * short_label(i) + 16) + right_align(
        dec_digits(short_values(s)[i]),
        8,
    ) + seq![32u8, 107u8, 66u8, 10u8]
}

/// The first `n` lines.
pub open spec fn short_text_upto(s: MeminfoSource, n: nat) -> Seq<u8>
    decreases n,
{
    if n == 0 {
        seq![]
    } else {
        short_text_upto(s, (n - 1) as nat) + short_line(s, n - 1)
    }
}

/// The whole text.
pub open spec fn short_text(s: MeminfoSource) -> Seq<u8> {
    short_text_upto(s, 4)
}

/// Generates the text.
pub fn short_meminfo(s: MeminfoSource) -> (text: Vec<u8>)
    requires
        short_source_ok(s),
    ensures
        text@ == short_text(s),
{
    let labels = meminfo_label_table();
    let free_kb: u64 = ((s.free_frames * s.page_size) / 1024) as u64;
    let values: Vec<u64> = vec![(s.memory_size / 1024) as u64, free_kb, free_kb, 0];
    let label_at: Vec<usize> = vec![0, 1, 2, 4];
    let mut text: Vec<u8> = Vec::new();
    let mut i: usize = 0;
    while i < 4
        invariant
            i <= 4,
            labels@ == meminfo_labels(),
            labels.len() == 704,
            values@ == seq![(s.memory_size / 1024) as u64, free_kb, free_kb, 0u64],
            free_kb == (s.free_frames * s.page_size / 1024) as nat,
            label_at@ == seq![0usize, 1, 2, 4],
            text@ == short_text_upto(s, i as nat),
        decreases 4 - i,
    {
        let ghost before = text@;
        let l = label_at[i];
        assert(l == short_label(i as int));
        let mut j: usize = 0;
        while j < 16
            invariant
                j <= 16,
                l <= 4,
                labels@ == meminfo_labels(),
                labels.len() == 704,
                text@ == before + meminfo_labels().subrange(16 * l as int, 16 * l as int + j),
            decreases 16 - j,
        {
            text.push(labels[16 * l + j]);
            j = j + 1;
            assert(text@ =~= before + meminfo_labels().subrange(16 * l as int, 16 * l as int + j));
        }
        push_right_aligned(&mut text, values[i], 8);
        text.push(32u8);
        text.push(107u8);
        text.push(66u8);
        text.push(10u8);
        proof {
            assert(values@[i as int] as nat == short_values(s)[i as int]);
            assert(text@ =~= before + short_line(s, i as int));
        }
        i = i + 1;
    }
    text
}

pub struct ProcMeminfo;

impl ProcMeminfo {
    pub fn deep_clone(&self) -> (f: ProcMeminfo) {
        ProcMeminfo
    }

    pub fn readable(&self) -> (b: bool)
        ensures
            b,
    {
        true
    }

    pub fn writable(&self) -> (b: bool)
        ensures
            !b,
    {
        false
    }

    /// Copies the start of the text into `buf`, as much as fits, and returns
    /// the number of bytes copied.
    pub fn read(&self, s: MeminfoSource, buf: &mut [u8]) -> (n: usize)
        requires
            short_source_ok(s),
        ensures
            n == if short_text(s).len() < old(buf)@.len() {
                short_text(s).len()
            } else {
                old(buf)@.len() as nat
            },
            final(buf)@.len() == old(buf)@.len(),
            final(buf)@.subrange(0, n as int) == short_text(s).subrange(0, n as int),
            final(buf)@.subrange(n as int, old(buf)@.len() as int) == old(buf)@.subrange(
                n as int,
                old(buf)@.len() as int,
            ),
    {
        let data = short_meminfo(s);
        let len = if data.len() < buf.len() {
            data.len()
        } else {
            buf.len()
        };
        let mut i: usize = 0;
        while i < len
            invariant
                i <= len,
                len <= data.len(),
                len <= buf@.len(),
                data@ == short_text(s),
                buf@.len() == old(buf)@.len(),
                forall|k: int| 0 <= k < i ==> buf@[k] == data@[k],
                forall|k: int| i <= k < buf@.len() ==> buf@[k] == old(buf)@[k],
            decreases len - i,
        {
            buf[i] = data[i];
            i = i + 1;
        }
        assert(buf@.subrange(0, len as int) =~= short_text(s).subrange(0, len as int));
        assert(buf@.subrange(len as int, old(buf)@.len() as int) =~= old(buf)@.subrange(
            len as int,
            old(buf)@.len() as int,
        ));
        len
    }

    pub fn write(&self, _buf: &[u8]) -> (n: usize)
        ensures
            n == 0,
    {
        0
    }

    pub fn r_ready(&self) -> (b: bool)
        ensures
            b,
    {
        true
    }

    pub fn w_ready(&self) -> (b: bool)
        ensures
            !b,
    {
        false
    }

    pub fn get_size(&self) -> (n: usize)
        ensures
            n == 0,
    {
        0
    }

    /// A read-only regular file on device 0:4.
    pub fn get_stat(&self) -> (st: Stat)
        ensures
            st == (Stat {
                st_dev: DevNum { major: 0, minor: 4 },
                st_ino: 1,
                st_mode: S_IFREG | 0o444,
                st_nlink: 1,
                st_rdev: DevNum { major: 0, minor: 0 },
                st_size: 0,
                st_atime_sec: 0,
                st_mtime_sec: 0,
                st_ctime_sec: 0,
            }),
    {
        Stat {
            st_dev: DevNum { major: 0, minor: 4 },
            st_ino: 1,
            st_mode: S_IFREG | 0o444,
            st_nlink: 1,
            st_rdev: DevNum { major: 0, minor: 0 },
            st_size: 0,
            st_atime_sec: 0,
            st_mtime_sec: 0,
            st_ctime_sec: 0,
        }
    }

    /// The bytes a read into a user buffer of `buf_len` bytes delivers: the
    /// start of the text, as much as fits.
    pub fn read_user(&self, s: MeminfoSource, buf_len: usize) -> (out: Vec<u8>)
        requires
            short_source_ok(s),
        ensures
            out@ == short_text(s).subrange(
                0,
                if short_text(s).len() < buf_len {
                    short_text(s).len() as int
                } else {
                    buf_len as int
                },
            ),
    {
        let data = short_meminfo(s);
        let n = if data.len() < buf_len {
            data.len()
        } else {
            buf_len
        };
        let mut out: Vec<u8> = Vec::new();
        let mut i: usize = 0;
        while i < n
            invariant
                i <= n,
                n <= data.len(),
                data@ == short_text(s),
                out@ == data@.subrange(0, i as int),
            decreases n - i,
        {
            out.push(data[i]);
            i = i + 1;
            assert(out@ =~= data@.subrange(0, i as int));
        }
        out
    }

    pub fn write_user(&self, _buf_len: usize) -> (n: usize)
        ensures
            n == 0,
    {
        0
    }

    pub fn get_file_type(&self) -> (t: DiskInodeType)
        ensures
            t == DiskInodeType::File,
    {
        DiskInodeType::File
    }

    pub fn open(&self, _flags: u32, _special_use: bool) -> (f: ProcMeminfo) {
        ProcMeminfo
    }

    pub fn open_subfile(&self) -> (r: Result<(), isize>)
        ensures
            r == Err::<(), isize>(ENOTDIR),
    {
        Err(ENOTDIR)
    }

    pub fn create(&self, _name: &str, _file_type: DiskInodeType) -> (r: Result<(), isize>)
        ensures
            r == Err::<(), isize>(EINVAL),
    {
        Err(EINVAL)
    }

    pub fn link_child(&self, _name: &str) -> (r: Result<(), isize>)
        ensures
            r == Err::<(), isize>(EINVAL),
    {
        Err(EINVAL)
    }

    pub fn unlink(&self, _delete: bool) -> (r: Result<(), isize>)
        ensures
            r == Err::<(), isize>(EINVAL),
    {
        Err(EINVAL)
    }

    pub fn lseek(&self, _offset: isize) -> (r: Result<usize, isize>)
        ensures
            r == Err::<usize, isize>(ESPIPE),
    {
        Err(ESPIPE)
    }

    pub fn modify_size(&self, _diff: isize) -> (r: Result<(), isize>)
        ensures
            r == Ok::<(), isize>(()),
    {
        Ok(())
    }

    pub fn truncate_size(&self, _new_size: usize) -> (r: Result<(), isize>)
        ensures
            r == Err::<(), isize>(EINVAL),
    {
        Err(EINVAL)
    }

    pub fn oom(&self) -> (n: usize)
        ensures
            n == 0,
    {
        0
    }

    pub fn hang_up(&self) -> (b: bool)
        ensures
            !b,
    {
        false
    }

    pub fn fcntl(&self, _cmd: u32, _arg: u32) -> (r: isize)
        ensures
            r == EINVAL,
    {
        EINVAL
    }
}

} // verus!
