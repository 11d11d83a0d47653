//! Starting programs and threads: the arguments of `execve`, the check of an
//! executable's header, the plan of `clone`, and the permissions of `mmap`.
use vstd::prelude::*;
use crate::errno::{EFAULT, EINVAL, ENOEXEC};
use crate::signal::Signals;
use crate::uspace::{UserSpace, le_value};
use crate::process_vm::{write_at, write_bytes};
use crate::task::Task;

verus! {

/// First index at or after `i` holding a zero byte.
pub open spec fn first_zero_from(mem: Seq<u8>, i: int) -> Option<int>
    decreases mem.len() - i,
{
    if i < 0 || i >= mem.len() {
        None
    } else if mem[i] == 0 {
        Some(i)
    } else {
        first_zero_from(mem, i + 1)
    }
}

proof fn lemma_first_zero_bounds(mem: Seq<u8>, i: int)
    ensures
        first_zero_from(mem, i) matches Some(j) ==> (0 <= i <= j < mem.len() && mem[j] == 0),
    decreases mem.len() - i,
{
    if 0 <= i < mem.len() {
        lemma_first_zero_bounds(mem, i + 1);
    }
}

/// The C string at `ptr`: its bytes up to the terminating zero, or nothing
/// when memory ends first.
pub open spec fn cstr_at(mem: Seq<u8>, ptr: usize) -> Option<Seq<u8>> {
    match first_zero_from(mem, ptr as int) {
        Some(z) => Some(mem.subrange(ptr as int, z)),
        None => None,
    }
}

/// The machine word at `ptr`.
pub open spec fn word_at(mem: Seq<u8>, ptr: int) -> usize {
    le_value(mem.subrange(ptr, ptr + 8)) as usize
}

/// The pointers of a null-terminated array at `ptr`, without the null; or
/// nothing when memory ends first.
pub open spec fn ptr_array(mem: Seq<u8>, ptr: int) -> Option<Seq<usize>>
    decreases mem.len() - ptr,
{
    if ptr < 0 || ptr + 8 > mem.len() {
        None
    } else if word_at(mem, ptr) == 0 {
        Some(Seq::empty())
    } else {
        match ptr_array(mem, ptr + 8) {
            Some(rest) => Some(seq![word_at(mem, ptr)] + rest),
            None => None,
        }
    }
}

/// The strings the pointers `ptrs` name; nothing if one cannot be read.
pub open spec fn strings_at(mem: Seq<u8>, ptrs: Seq<usize>) -> Option<Seq<Seq<u8>>>
    decreases ptrs.len(),
{
    if ptrs.len() == 0 {
        Some(Seq::empty())
    } else {
        match (strings_at(mem, ptrs.drop_last()), cstr_at(mem, ptrs.last())) {
            (Some(init), Some(s)) => Some(init.push(s)),
            _ => None,
        }
    }
}

proof fn lemma_strings_each(mem: Seq<u8>, ptrs: Seq<usize>, k: int)
    requires
        strings_at(mem, ptrs) is Some,
        0 <= k < ptrs.len(),
    ensures
        cstr_at(mem, ptrs[k]) is Some,
    decreases ptrs.len(),
{
    if k < ptrs.len() - 1 {
        lemma_strings_each(mem, ptrs.drop_last(), k);
    }
}

/// The argument strings of `execve` behind a (possibly null) array pointer.
pub open spec fn args_at(mem: Seq<u8>, ptr: usize) -> Option<Seq<Seq<u8>>> {
    if ptr == 0 {
        Some(Seq::empty())
    } else {
        match ptr_array(mem, ptr as int) {
            Some(ptrs) => strings_at(mem, ptrs),
            None => None,
        }
    }
}

/// The views of a list of byte strings.
pub open spec fn views(v: Seq<Vec<u8>>) -> Seq<Seq<u8>> {
    v.map_values(|s: Vec<u8>| s@)
}

/// Reads the C string at `ptr`; EFAULT when memory ends before its zero.
pub fn read_cstr(space: &UserSpace, ptr: usize) -> (r: Result<Vec<u8>, isize>)
    ensures
        match cstr_at(space.mem@, ptr) {
            Some(s) => r matches Ok(v) && v@ == s,
            None => r == Err::<Vec<u8>, isize>(EFAULT),
        },
{
    let mut out: Vec<u8> = Vec::new();
    let mut i = ptr;
    if i > space.mem.len() {
        return Err(EFAULT);
    }
    while i < space.mem.len()
        invariant
            ptr <= i <= space.mem@.len(),
            first_zero_from(space.mem@, ptr as int) == first_zero_from(space.mem@, i as int),
            out@ == space.mem@.subrange(ptr as int, i as int),
        decreases space.mem@.len() - i,
    {
        if space.mem[i] == 0 {
            return Ok(out);
        }
        out.push(space.mem[i]);
        i = i + 1;
        assert(out@ =~= space.mem@.subrange(ptr as int, i as int));
    }
    Err(EFAULT)
}

/// Reads the null-terminated pointer array at `ptr`; EFAULT when memory ends
/// before the null.
pub fn read_ptr_array(space: &UserSpace, ptr: usize) -> (r: Result<Vec<usize>, isize>)
    ensures
        match ptr_array(space.mem@, ptr as int) {
            Some(p) => r matches Ok(v) && v@ == p,
            None => r == Err::<Vec<usize>, isize>(EFAULT),
        },
{
    let mut out: Vec<usize> = Vec::new();
    let mut at = ptr;
    loop
        invariant
            ptr <= at,
            match ptr_array(space.mem@, ptr as int) {
                Some(p) => match ptr_array(space.mem@, at as int) {
                    Some(q) => p == out@ + q,
                    None => false,
                },
                None => ptr_array(space.mem@, at as int) is None,
            },
        decreases space.mem@.len() + 8 - at,
    {
        if at > space.mem.len() || 8 > space.mem.len() - at {
            return Err(EFAULT);
        }
        let w = space.read_word(at);
        if w == 0 {
            proof {
                if let Some(p) = ptr_array(space.mem@, ptr as int) {
                    assert(out@ + Seq::<usize>::empty() =~= out@);
                }
            }
            return Ok(out);
        }
        out.push(w);
        proof {
            if let Some(p) = ptr_array(space.mem@, ptr as int) {
                let q = ptr_array(space.mem@, at as int)->0;
                let q2 = ptr_array(space.mem@, at + 8)->0;
                assert(q == seq![w] + q2);
                assert(p =~= out@ + q2);
            }
        }
        at = at + 8;
    }
}

/// Reads the strings named by the array at `ptr` (none for a null pointer).
pub fn read_args(space: &UserSpace, ptr: usize) -> (r: Result<Vec<Vec<u8>>, isize>)
    ensures
        match args_at(space.mem@, ptr) {
            Some(a) => r matches Ok(v) && views(v@) == a,
            None => r == Err::<Vec<Vec<u8>>, isize>(EFAULT),
        },
{
    let mut out: Vec<Vec<u8>> = Vec::new();
    if ptr == 0 {
        assert(views(out@) =~= Seq::<Seq<u8>>::empty());
        return Ok(out);
    }
    let ptrs = read_ptr_array(space, ptr)?;
    let mut k: usize = 0;
    while k < ptrs.len()
        invariant
            k <= ptrs@.len(),
            ptr != 0,
            ptr_array(space.mem@, ptr as int) == Some(ptrs@),
            strings_at(space.mem@, ptrs@.subrange(0, k as int)) == Some(views(out@)),
        decreases ptrs.len() - k,
    {
        let s = match read_cstr(space, ptrs[k]) {
            Ok(s) => s,
            Err(e) => {
                proof {
                    assert(cstr_at(space.mem@, ptrs@[k as int]) is None);
                    assert(e == EFAULT);
                    if strings_at(space.mem@, ptrs@) is Some {
                        lemma_strings_each(space.mem@, ptrs@, k as int);
                    }
                    assert(strings_at(space.mem@, ptrs@) is None);
                    assert(args_at(space.mem@, ptr) is None);
                }
                return Err(e);
            },
        };
        proof {
            assert(ptrs@.subrange(0, k + 1).drop_last() =~= ptrs@.subrange(0, k as int));
            assert(ptrs@.subrange(0, k + 1).last() == ptrs@[k as int]);
        }
        let ghost before = out@;
        out.push(s);
        assert(views(out@) =~= views(before).push(s@));
        k = k + 1;
        proof {
            if strings_at(space.mem@, ptrs@.subrange(0, k as int)) is None {
                assert(false);
            }
        }
    }
    assert(ptrs@.subrange(0, ptrs@.len() as int) =~= ptrs@);
    Ok(out)
}

/// What `execve` read from user memory: the path and the argument and
/// environment strings.
pub struct ExecArgs {
    pub path: Vec<u8>,
    pub argv: Vec<Vec<u8>>,
    pub envp: Vec<Vec<u8>>,
}

/// Reads the path, arguments and environment of `execve`; EFAULT when any
/// of them cannot be read.
pub fn sys_execve(space: &UserSpace, pathname: usize, argv: usize, envp: usize) -> (r: Result<ExecArgs, isize>)
    ensures
        match (cstr_at(space.mem@, pathname), args_at(space.mem@, argv), args_at(space.mem@, envp)) {
            (Some(p), Some(a), Some(e)) => r matches Ok(x) && x.path@ == p && views(x.argv@) == a && views(x.envp@) == e,
            _ => r == Err::<ExecArgs, isize>(EFAULT),
        },
{
    let path = read_cstr(space, pathname)?;
    let argv_vec = read_args(space, argv)?;
    let envp_vec = read_args(space, envp)?;
    Ok(ExecArgs { path, argv: argv_vec, envp: envp_vec })
}

/// The first four bytes of an ELF executable.
pub open spec fn elf_magic() -> Seq<u8> {
    seq![0x7fu8, 0x45u8, 0x4cu8, 0x46u8]
}

/// Checks an opened file before loading it: a file shorter than four bytes,
/// or one whose first four bytes are not the ELF magic, is ENOEXEC.
pub fn exec_check(size: usize, magic: &[u8]) -> (r: Result<(), isize>)
    requires
        magic@.len() == 4,
    ensures
        r is Ok <==> (size >= 4 && magic@ == elf_magic()),
        r is Err ==> r == Err::<(), isize>(ENOEXEC),
{
    if size < 4 {
        return Err(ENOEXEC);
    }
    if magic[0] == 0x7f && magic[1] == 0x45 && magic[2] == 0x4c && magic[3] == 0x46 {
        assert(magic@ =~= elf_magic());
        Ok(())
    } else {
        Err(ENOEXEC)
    }
}

/// Flags of `clone`.
pub const CLONE_PARENT_SETTID: u32 = 0x00100000;
pub const CLONE_CHILD_CLEARTID: u32 = 0x00200000;
pub const CLONE_CHILD_SETTID: u32 = 0x01000000;

/// What `clone` does around creating the child.
#[derive(Clone, Copy, Debug, PartialEq, Eq)]
pub struct ClonePlan {
    /// The sharing flags (the argument without its low byte).
    pub flags: u32,
    /// The signal sent to the parent when the child exits.
    pub exit_signal: Signals,
    /// Store the child's thread id at `ptid` in the parent.
    pub set_parent_tid: bool,
    /// Store the child's thread id at `ctid` in the child.
    pub set_child_tid: bool,
    /// The address the child clears when it exits.
    pub clear_child_tid: Option<usize>,
}

/// Decides `clone`: the low byte names the exit signal (an invalid number
/// gives none), the rest are the flags; the child's thread id goes to `ptid`
/// under `CLONE_PARENT_SETTID`, to a non-null `ctid` under
/// `CLONE_CHILD_SETTID`, and a non-null `ctid` is recorded under
/// `CLONE_CHILD_CLEARTID`.
pub fn sys_clone(flags: u32, ctid: usize) -> (p: ClonePlan)
    ensures
        p.flags == flags & !0xffu32,
        (flags & 0xff) as usize <= 64 ==> p.exit_signal == crate::process::signum_set((flags & 0xff) as usize),
        p.set_parent_tid == (flags & CLONE_PARENT_SETTID != 0),
        p.set_child_tid == (flags & CLONE_CHILD_SETTID != 0 && ctid != 0),
        p.clear_child_tid == if flags & CLONE_CHILD_CLEARTID != 0 && ctid != 0 {
            Some(ctid)
        } else {
            None
        },
{
    let exit_signal = match Signals::from_signum((flags & 0xff) as usize) {
        Some(s) => s,
        None => Signals::empty(),
    };
    let f = flags & !0xffu32;
    ClonePlan {
        flags: f,
        exit_signal,
        set_parent_tid: flags & CLONE_PARENT_SETTID != 0,
        set_child_tid: flags & CLONE_CHILD_SETTID != 0 && ctid != 0,
        clear_child_tid: if flags & CLONE_CHILD_CLEARTID != 0 && ctid != 0 {
            Some(ctid)
        } else {
            None
        },
    }
}

/// The four bytes of `v`, least significant first.
pub open spec fn u32_le_bytes(v: u32) -> Seq<u8> {
    seq![(v & 0xff) as u8, ((v >> 8u32) & 0xff) as u8, ((v >> 16u32) & 0xff) as u8, (v >> 24u32) as u8]
}

fn le_bytes_of(v: u32) -> (b: Vec<u8>)
    ensures
        b@ == u32_le_bytes(v),
{
    let mut b: Vec<u8> = Vec::new();
    b.push((v & 0xff) as u8);
    b.push(((v >> 8u32) & 0xff) as u8);
    b.push(((v >> 16u32) & 0xff) as u8);
    b.push((v >> 24u32) as u8);
    assert(b@ =~= u32_le_bytes(v));
    b
}

/// `mem` after the thread id `tid` is stored, as a 32-bit word, at `addr`.
pub open spec fn tid_stored(mem: Seq<u8>, addr: usize, tid: usize) -> Seq<u8> {
    write_at(mem, addr as int, u32_le_bytes(tid as u32))
}

/// A 32-bit word at `addr` lies in mapped memory of `len` bytes.
pub open spec fn word32_mapped(len: nat, addr: usize) -> bool {
    addr + 4 <= len
}

/// Stores `v` as a 32-bit little-endian word at `addr`.
fn store_u32(space: &mut UserSpace, addr: usize, v: u32)
    requires
        word32_mapped(old(space).mem@.len(), addr),
    ensures
        final(space).mem@ == write_at(old(space).mem@, addr as int, u32_le_bytes(v)),
{
    let b = le_bytes_of(v);
    assert(b@.subrange(0, 4) =~= b@);
    write_bytes(space, addr, &b, 0, 4);
}

/// Finishes `clone` once the child exists with thread id `child_pid`: under
/// the plan, stores the id at `ptid` in the parent's memory (EFAULT, and
/// nothing else done, when that word is not mapped), stores it at `ctid` in
/// the child's memory when that word is mapped, records the address the
/// child clears on exit, and returns the id to the parent.
pub fn clone_finish(
    plan: &ClonePlan,
    child_pid: usize,
    ptid: usize,
    ctid: usize,
    parent_space: &mut UserSpace,
    child_space: &mut UserSpace,
    child: &mut Task,
) -> (r: isize)
    ensures
        plan.set_parent_tid && !word32_mapped(old(parent_space).mem@.len(), ptid) ==> r == EFAULT
            && final(parent_space).mem@ == old(parent_space).mem@ && final(child_space).mem@ == old(
            child_space,
        ).mem@ && *final(child) == *old(child),
        !(plan.set_parent_tid && !word32_mapped(old(parent_space).mem@.len(), ptid)) ==> {
            &&& r == child_pid as isize
            &&& final(parent_space).mem@ == if plan.set_parent_tid {
                tid_stored(old(parent_space).mem@, ptid, child_pid)
            } else {
                old(parent_space).mem@
            }
            &&& final(child_space).mem@ == if plan.set_child_tid && word32_mapped(
                old(child_space).mem@.len(),
                ctid,
            ) {
                tid_stored(old(child_space).mem@, ctid, child_pid)
            } else {
                old(child_space).mem@
            }
            &&& *final(child) == match plan.clear_child_tid {
                Some(a) => Task { clear_child_tid: a, ..*old(child) },
                None => *old(child),
            }
        },
{
    let id = child_pid as u32;
    if plan.set_parent_tid {
        if ptid > parent_space.mem.len() || 4 > parent_space.mem.len() - ptid {
            return EFAULT;
        }
        store_u32(parent_space, ptid, id);
    }
    if plan.set_child_tid && ctid <= child_space.mem.len() && 4 <= child_space.mem.len() - ctid {
        store_u32(child_space, ctid, id);
    }
    match plan.clear_child_tid {
        Some(a) => {
            child.clear_child_tid = a;
        },
        None => {},
    }
    child_pid as isize
}

/// Permission bits of a mapping: readable, writable, executable, user.
pub const MAP_PERM_BITS: u8 = 0x1e;

/// The mapping permission `mmap` asks for: the protection bits shifted up one
/// place, plus the user bit. Only read, write and execute may be asked for
/// among the low seven bits.
pub fn mmap_permission(prot: usize) -> (perm: u8)
    requires
        prot & 0x70 == 0,
    ensures
        perm == ((((prot & 0xff) as u8) << 1u8) | 0x10u8),
        perm & !MAP_PERM_BITS == 0,
{
    let p: u8 = (prot & 0xff) as u8;
    assert(prot & 0x70 == 0 ==> ((prot & 0xff) as u8) & 0x70 == 0) by (bit_vector);
    assert(p & 0x70 == 0 ==> ((p << 1u8) | 0x10u8) & !0x1eu8 == 0) by (bit_vector);
    (p << 1u8) | 0x10u8
}

/// A mapping request of `mmap`, as passed on to the memory set.
#[derive(Clone, Copy, Debug, PartialEq, Eq)]
pub struct MmapRequest {
    pub start: usize,
    pub len: usize,
    pub perm: u8,
    pub flags: usize,
    pub fd: usize,
    pub offset: usize,
}

/// `mmap`: the request with the protection turned into mapping permissions;
/// EINVAL when the protection asks for more than read, write and execute
/// among its low seven bits.
pub fn sys_mmap(start: usize, len: usize, prot: usize, flags: usize, fd: usize, offset: usize) -> (r: Result<
    MmapRequest,
    isize,
>)
    ensures
        prot & 0x70 != 0 ==> r == Err::<MmapRequest, isize>(EINVAL),
        prot & 0x70 == 0 ==> r == Ok::<MmapRequest, isize>(
            MmapRequest { start, len, perm: ((((prot & 0xff) as u8) << 1u8) | 0x10u8), flags, fd, offset },
        ),
{
    if prot & 0x70 != 0 {
        return Err(EINVAL);
    }
    Ok(MmapRequest { start, len, perm: mmap_permission(prot), flags, fd, offset })
}

} // verus!
