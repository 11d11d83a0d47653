//! /proc/meminfo: Linux-compatible memory statistics generated on every read.
use vstd::prelude::*;
use crate::errno::{ENOTDIR, EPERM, ENOTTY, SUCCESS};
use crate::fmt::{dec_digits, right_align, push_right_aligned};
use crate::meminfo_labels::{meminfo_labels, meminfo_label_table, MEMINFO_LINES, LABEL_WIDTH};
use crate::stat::{DevNum, Stat, DiskInodeType, S_IFREG};

verus! {

/// What the memory statistics are computed from.
#[derive(Clone, Copy, Debug, PartialEq, Eq)]
pub struct MeminfoSource {
    /// Bytes of physical memory.
    pub memory_size: usize,
    /// Bytes of a page frame.
    pub page_size: usize,
    /// Frames not allocated.
    pub free_frames: usize,
}

/// The statistics can be computed without overflow.
pub open spec fn source_ok(s: MeminfoSource) -> bool {
    &&& s.page_size > 0
    &&& (s.memory_size / s.page_size) * 4 <= u64::MAX
    &&& s.free_frames * 4 <= u64::MAX
    &&& s.page_size * 512 <= u64::MAX
}

/// Frames in use: all frames less the free ones, never below zero.
pub open spec fn used_frames(s: MeminfoSource) -> nat {
    let total = s.memory_size / s.page_size;
    if total >= s.free_frames {
        (total - s.free_frames) as nat
    } else {
        0
    }
}

/// The 44 reported numbers, in kB except the four huge-page counts.
pub open spec fn meminfo_values(s: MeminfoSource) -> Seq<nat> {
    let total_kb: nat = ((s.memory_size / s.page_size) * 4) as nat;
    let free_kb: nat = (s.free_frames * 4) as nat;
    let used_kb: nat = used_frames(s) * 4;
    let anon_kb: nat = if used_frames(s) >= 8192 {
        ((used_frames(s) - 8192) * 4) as nat
    } else {
        0
    };
    let huge_kb: nat = (s.page_size * 512 / 1024) as nat;
    seq![
        total_kb, free_kb, free_kb, 0, 0, 0, used_kb, 0, used_kb, 0,
        0, 0, 0, 0, 0, 0, 0, 0, anon_kb, 0,
        0, 0, 0, 0, 0, 0, 0, 0, 0, 0,
        total_kb, used_kb, 0, 0, 0, 0, 0, 0, 0, 0,
        huge_kb, total_kb, 0, 0
    ]
}

/// Lines 36 to 39 (the huge-page counts) carry no unit.
pub open spec fn line_has_unit(i: int) -> bool {
    !(36 <= i <= 39)
}

/// Label `i`, then the value right-aligned in eight bytes, then " kB" where
/// the line has a unit, then a newline.
pub open spec fn meminfo_line(s: MeminfoSource, i: int) -> Seq<u8> {
    meminfo_labels().subrange(16 * i, 16 * i + 16) + right_align(
        dec_digits(meminfo_values(s)[i]),
        8,
    ) + (if line_has_unit(i) {
        seq![32u8, 107u8, 66u8]
    } else {
        seq![]
    }) + seq![10u8]
}

/// The first `n` lines.
pub open spec fn meminfo_text_upto(s: MeminfoSource, n: nat) -> Seq<u8>
    decreases n,
{
    if n == 0 {
        seq![]
    } else {
        meminfo_text_upto(s, (n - 1) as nat) + meminfo_line(s, n - 1)
    }
}

/// The whole text of /proc/meminfo.
pub open spec fn meminfo_text(s: MeminfoSource) -> Seq<u8> {
    meminfo_text_upto(s, 44)
}

fn meminfo_value_vec(s: MeminfoSource) -> (v: Vec<u64>)
    requires
        source_ok(s),
    ensures
        v.len() == 44,
        forall|i: int| 0 <= i < 44 ==> v@[i] as nat == #[trigger] meminfo_values(s)[i],
{
    let total_frames: u64 = (s.memory_size / s.page_size) as u64;
    let free_frames: u64 = s.free_frames as u64;
    let used: u64 = if total_frames >= free_frames {
        total_frames - free_frames
    } else {
        0
    };
    let total_kb: u64 = total_frames * 4;
    let free_kb: u64 = free_frames * 4;
    let used_kb: u64 = used * 4;
    let anon_kb: u64 = if used >= 8192 {
        (used - 8192) * 4
    } else {
        0
    };
    let huge_kb: u64 = (s.page_size as u64) * 512 / 1024;
    let v: Vec<u64> = vec![
        total_kb, free_kb, free_kb, 0, 0, 0, used_kb, 0, used_kb, 0,
        0, 0, 0, 0, 0, 0, 0, 0, anon_kb, 0,
        0, 0, 0, 0, 0, 0, 0, 0, 0, 0,
        total_kb, used_kb, 0, 0, 0, 0, 0, 0, 0, 0,
        huge_kb, total_kb, 0, 0
    ];
    assert forall|i: int| 0 <= i < 44 implies v@[i] as nat == #[trigger] meminfo_values(s)[i] by {
    }
    v
}

/// Generates the text of /proc/meminfo.
pub fn generate_meminfo(s: MeminfoSource) -> (text: Vec<u8>)
    requires
        source_ok(s),
    ensures
        text@ == meminfo_text(s),
{
    let labels = meminfo_label_table();
    let values = meminfo_value_vec(s);
    let mut text: Vec<u8> = Vec::new();
    let mut i: usize = 0;
    while i < MEMINFO_LINES
        invariant
            i <= 44,
            labels@ == meminfo_labels(),
            labels.len() == 704,
            values.len() == 44,
            forall|k: int| 0 <= k < 44 ==> values@[k] as nat == #[trigger] meminfo_values(s)[k],
            text@ == meminfo_text_upto(s, i as nat),
        decreases 44 - i,
    {
        let ghost before = text@;
        let mut j: usize = 0;
        while j < LABEL_WIDTH
            invariant
                j <= 16,
                i < 44,
                labels@ == meminfo_labels(),
                labels.len() == 704,
                text@ == before + meminfo_labels().subrange(16 * i as int, 16 * i as int + j),
            decreases 16 - j,
        {
            text.push(labels[16 * i + j]);
            j = j + 1;
            assert(text@ =~= before + meminfo_labels().subrange(16 * i as int, 16 * i as int + j));
        }
        push_right_aligned(&mut text, values[i], 8);
        if !(36 <= i && i <= 39) {
            text.push(32u8);
            text.push(107u8);
            text.push(66u8);
        }
        text.push(10u8);
        proof {
            assert(values@[i as int] as nat == meminfo_values(s)[i as int]);
            assert(text@ =~= before + meminfo_line(s, i as int));
        }
        i = i + 1;
    }
    text
}

/// The /proc/meminfo file.
pub struct ProcMeminfo;

impl ProcMeminfo {
    /// A new handle to the same file (`deep_clone`, `open`).
    pub fn deep_clone(&self) -> (f: ProcMeminfo) {
        ProcMeminfo
    }

    pub fn readable(&self) -> (b: bool)
        ensures
            b,
    {
        true
    }

    pub fn writable(&self) -> (b: bool)
        ensures
            !b,
    {
        false
    }

    /// Copies the start of the statistics into `buf`, as much as fits, and
    /// returns the number of bytes copied.
    pub fn read(&self, s: MeminfoSource, buf: &mut [u8]) -> (n: usize)
        requires
            source_ok(s),
        ensures
            n == if meminfo_text(s).len() < old(buf)@.len() {
                meminfo_text(s).len()
            } else {
                old(buf)@.len() as nat
            },
            final(buf)@.len() == old(buf)@.len(),
            final(buf)@.subrange(0, n as int) == meminfo_text(s).subrange(0, n as int),
            final(buf)@.subrange(n as int, old(buf)@.len() as int) == old(buf)@.subrange(
                n as int,
                old(buf)@.len() as int,
            ),
    {
        let data = generate_meminfo(s);
        let len = if data.len() < buf.len() {
            data.len()
        } else {
            buf.len()
        };
        let mut i: usize = 0;
        while i < len
            invariant
                i <= len,
                len <= data.len(),
                len <= buf@.len(),
                data@ == meminfo_text(s),
                buf@.len() == old(buf)@.len(),
                forall|k: int| 0 <= k < i ==> buf@[k] == data@[k],
                forall|k: int| i <= k < buf@.len() ==> buf@[k] == old(buf)@[k],
            decreases len - i,
        {
            buf[i] = data[i];
            i = i + 1;
        }
        assert(buf@.subrange(0, len as int) =~= meminfo_text(s).subrange(0, len as int));
        assert(buf@.subrange(len as int, old(buf)@.len() as int) =~= old(buf)@.subrange(
            len as int,
            old(buf)@.len() as int,
        ));
        len
    }

    /// Writing is refused: nothing is written.
    pub fn write(&self, _buf: &[u8]) -> (n: usize)
        ensures
            n == 0,
    {
        0
    }

    pub fn r_ready(&self) -> (b: bool)
        ensures
            b,
    {
        true
    }

    pub fn w_ready(&self) -> (b: bool)
        ensures
            !b,
    {
        false
    }

    /// The size is that of the text the next read produces.
    pub fn get_size(&self, s: MeminfoSource) -> (n: usize)
        requires
            source_ok(s),
        ensures
            n == meminfo_text(s).len(),
    {
        generate_meminfo(s).len()
    }

    /// A read-only regular file of the size of the text.
    pub fn get_stat(&self, s: MeminfoSource) -> (st: Stat)
        requires
            source_ok(s),
        ensures
            st == (Stat {
                st_dev: DevNum { major: 0, minor: 0 },
                st_ino: 2,
                st_mode: S_IFREG | 0o444,
                st_nlink: 1,
                st_rdev: DevNum { major: 0, minor: 0 },
                st_size: meminfo_text(s).len() as i64,
                st_atime_sec: 0,
                st_mtime_sec: 0,
                st_ctime_sec: 0,
            }),
    {
        let size = generate_meminfo(s).len();
        Stat {
            st_dev: DevNum { major: 0, minor: 0 },
            st_ino: 2,
            st_mode: S_IFREG | 0o444,
            st_nlink: 1,
            st_rdev: DevNum { major: 0, minor: 0 },
            st_size: size as i64,
            st_atime_sec: 0,
            st_mtime_sec: 0,
            st_ctime_sec: 0,
        }
    }

    /// The bytes a read into a user buffer of `buf_len` bytes delivers,
    /// starting at `offset` (0 when absent): nothing at or past the end, else
    /// as much of the rest as fits. Their number is the return value.
    pub fn read_user(&self, s: MeminfoSource, offset: Option<usize>, buf_len: usize) -> (out: Vec<
        u8,
    >)
        requires
            source_ok(s),
        ensures
            ({
                let start: int = match offset {
                    Some(o) => o as int,
                    None => 0,
                };
                let len = meminfo_text(s).len() as int;
                if start >= len {
                    out@ == Seq::<u8>::empty()
                } else {
                    let n = if len - start < buf_len {
                        len - start
                    } else {
                        buf_len as int
                    };
                    out@ == meminfo_text(s).subrange(start, start + n)
                }
            }),
    {
        let data = generate_meminfo(s);
        let start = match offset {
            Some(o) => o,
            None => 0,
        };
        let mut out: Vec<u8> = Vec::new();
        if start >= data.len() {
            return out;
        }
        let n = if data.len() - start < buf_len {
            data.len() - start
        } else {
            buf_len
        };
        let mut i: usize = 0;
        while i < n
            invariant
                i <= n,
                start + n <= data.len(),
                data@ == meminfo_text(s),
                out@ == data@.subrange(start as int, start + i),
            decreases n - i,
        {
            out.push(data[start + i]);
            i = i + 1;
            assert(out@ =~= data@.subrange(start as int, start + i));
        }
        out
    }

    /// Writing from a user buffer is refused.
    pub fn write_user(&self, _buf_len: usize) -> (n: usize)
        ensures
            n == 0,
    {
        0
    }

    pub fn get_file_type(&self) -> (t: DiskInodeType)
        ensures
            t == DiskInodeType::File,
    {
        DiskInodeType::File
    }

    /// Not a directory.
    pub fn open_subfile(&self) -> (r: Result<(), isize>)
        ensures
            r == Err::<(), isize>(ENOTDIR),
    {
        Err(ENOTDIR)
    }

    /// No files can be created in it.
    pub fn create(&self, _name: &str, _file_type: DiskInodeType) -> (r: Result<(), isize>)
        ensures
            r == Err::<(), isize>(ENOTDIR),
    {
        Err(ENOTDIR)
    }

    pub fn link_child(&self, _name: &str) -> (r: Result<(), isize>)
        ensures
            r == Err::<(), isize>(ENOTDIR),
    {
        Err(ENOTDIR)
    }

    /// Removing it is not permitted.
    pub fn unlink(&self, _delete: bool) -> (r: Result<(), isize>)
        ensures
            r == Err::<(), isize>(EPERM),
    {
        Err(EPERM)
    }

    /// Seeking always lands at 0.
    pub fn lseek(&self, _offset: isize) -> (r: Result<usize, isize>)
        ensures
            r == Ok::<usize, isize>(0),
    {
        Ok(0)
    }

    pub fn modify_size(&self, _diff: isize) -> (r: Result<(), isize>)
        ensures
            r == Err::<(), isize>(EPERM),
    {
        Err(EPERM)
    }

    pub fn truncate_size(&self, _new_size: usize) -> (r: Result<(), isize>)
        ensures
            r == Err::<(), isize>(EPERM),
    {
        Err(EPERM)
    }

    pub fn oom(&self) -> (n: usize)
        ensures
            n == 0,
    {
        0
    }

    pub fn hang_up(&self) -> (b: bool)
        ensures
            !b,
    {
        false
    }

    pub fn ioctl(&self, _cmd: u32, _argp: usize) -> (r: isize)
        ensures
            r == ENOTTY,
    {
        ENOTTY
    }

    pub fn fcntl(&self, _cmd: u32, _arg: u32) -> (r: isize)
        ensures
            r == SUCCESS,
    {
        SUCCESS
    }
}


/// /proc/meminfo reports available memory equal to free memory, the commit
/// limit and the 4k direct map equal to total memory, no swap, and active,
/// active anonymous and committed memory all equal to the memory in use.
pub proof fn law_meminfo_consistent(s: MeminfoSource)
    ensures
        meminfo_values(s)[2] == meminfo_values(s)[1],
        meminfo_values(s)[30] == meminfo_values(s)[0],
        meminfo_values(s)[41] == meminfo_values(s)[0],
        meminfo_values(s)[14] == 0 && meminfo_values(s)[15] == 0,
        meminfo_values(s)[6] == meminfo_values(s)[31],
        meminfo_values(s)[8] == meminfo_values(s)[6],
{
}

/// What every line of /proc/meminfo means, for any page size: with `t` frames
/// in all (`memory_size / page_size`), `f` free and `u` in use (`t - f`, or 0
/// when more are free than exist):
/// - MemTotal, CommitLimit and DirectMap4k are `4 t` kB;
/// - MemFree and MemAvailable are `4 f` kB;
/// - Active, Active(anon) and Committed_AS are `4 u` kB, so that used and
///   free memory add up to the total whenever `f <= t`;
/// - AnonPages is the memory in use beyond the first 8192 frames;
/// - Hugepagesize is 512 pages, in kB;
/// - every other line (buffers, caches, swap, slab, kernel stacks, page
///   tables, vmalloc, huge-page counts, the large direct maps) is 0.
pub proof fn law_meminfo_lines(s: MeminfoSource)
    requires
        s.page_size > 0,
    ensures
        meminfo_values(s).len() == 44,
        meminfo_values(s)[0] == (s.memory_size / s.page_size) * 4,
        meminfo_values(s)[30] == meminfo_values(s)[0],
        meminfo_values(s)[41] == meminfo_values(s)[0],
        meminfo_values(s)[1] == s.free_frames * 4,
        meminfo_values(s)[2] == meminfo_values(s)[1],
        meminfo_values(s)[6] == used_frames(s) * 4,
        meminfo_values(s)[8] == meminfo_values(s)[6],
        meminfo_values(s)[31] == meminfo_values(s)[6],
        s.free_frames <= s.memory_size / s.page_size ==> meminfo_values(s)[6] + meminfo_values(s)[1]
            == meminfo_values(s)[0],
        s.free_frames >= s.memory_size / s.page_size ==> meminfo_values(s)[6] == 0,
        used_frames(s) >= 8192 ==> meminfo_values(s)[18] + 8192 * 4 == meminfo_values(s)[6],
        used_frames(s) <= 8192 ==> meminfo_values(s)[18] == 0,
        meminfo_values(s)[40] * 1024 <= s.page_size * 512 < (meminfo_values(s)[40] + 1) * 1024,
        forall|i: int|
            0 <= i < 44 && i != 0 && i != 1 && i != 2 && i != 6 && i != 8 && i != 18 && i != 30
                && i != 31 && i != 40 && i != 41 ==> #[trigger] meminfo_values(s)[i] == 0,
{
    let t = s.memory_size / s.page_size;
    assert((s.memory_size / s.page_size) * 4 - s.free_frames * 4 == (t - s.free_frames) * 4
        || s.free_frames > t);
    let h = s.page_size * 512;
    assert(h / 1024 * 1024 <= h < (h / 1024 + 1) * 1024) by (nonlinear_arith);
}

} // verus!
