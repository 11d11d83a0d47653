//! System information calls: kernel log, system name, statistics, and the
//! scheduling and memory calls that only report fixed answers.
use vstd::prelude::*;
use crate::errno::{SUCCESS, EINVAL, EFAULT};
use crate::process_vm::write_at;
use crate::uspace::{UserSpace, range_ok};
use crate::task::TaskManager;

verus! {

/// The kernel log text that `syslog` hands out.
pub open spec fn log_text() -> Seq<u8> {
    seq![
        60u8, 53, 62, 91, 32, 32, 32, 32, 48, 46, 48, 48, 48, 48, 48, 48, 93, 32, 76, 105,
        110, 117, 120, 32, 118, 101, 114, 115, 105, 111, 110, 32, 53, 46, 49, 48, 46, 49, 48, 50,
        46, 49, 45, 109, 105, 99, 114, 111, 115, 111, 102, 116, 45, 115, 116, 97, 110, 100, 97, 114,
        100, 45, 87, 83, 76, 50, 32, 40, 114, 116, 114, 116, 64, 84, 69, 65, 77, 45, 78, 80,
        85, 67, 79, 82, 69, 41, 32, 40, 103, 99, 99, 32, 40, 85, 98, 117, 110, 116, 117, 32,
        57, 46, 52, 46, 48, 45, 49, 117, 98, 117, 110, 116, 117, 49, 126, 50, 48, 46, 48, 52,
        41, 32, 57, 46, 52, 46, 48, 44, 32, 71, 78, 85, 32, 108, 100, 32, 40, 71, 78, 85,
        32, 66, 105, 110, 117, 116, 105, 108, 115, 32, 102, 111, 114, 32, 85, 98, 117, 110, 116, 117,
        41, 32, 50, 46, 51, 52, 41, 32, 35, 49, 32, 83, 77, 80, 32, 84, 104, 117, 32, 77,
        97, 114, 32, 49, 48, 32, 49, 51, 58, 51, 49, 58, 52, 55, 32, 67, 83, 84, 32, 50,
        48, 50, 50,
    ]
}

/// Length of the kernel log text.
pub const LOG_LEN: usize = 203;
/// Size of the kernel log buffer.
pub const LOG_BUF_LEN: usize = 4096;

/// The kernel log text as bytes.
pub fn log_bytes() -> (v: Vec<u8>)
    ensures
        v@ == log_text(),
        v@.len() == LOG_LEN,
{
    let v: Vec<u8> = vec![
        60u8, 53, 62, 91, 32, 32, 32, 32, 48, 46, 48, 48, 48, 48, 48, 48, 93, 32, 76, 105,
        110, 117, 120, 32, 118, 101, 114, 115, 105, 111, 110, 32, 53, 46, 49, 48, 46, 49, 48, 50,
        46, 49, 45, 109, 105, 99, 114, 111, 115, 111, 102, 116, 45, 115, 116, 97, 110, 100, 97, 114,
        100, 45, 87, 83, 76, 50, 32, 40, 114, 116, 114, 116, 64, 84, 69, 65, 77, 45, 78, 80,
        85, 67, 79, 82, 69, 41, 32, 40, 103, 99, 99, 32, 40, 85, 98, 117, 110, 116, 117, 32,
        57, 46, 52, 46, 48, 45, 49, 117, 98, 117, 110, 116, 117, 49, 126, 50, 48, 46, 48, 52,
        41, 32, 57, 46, 52, 46, 48, 44, 32, 71, 78, 85, 32, 108, 100, 32, 40, 71, 78, 85,
        32, 66, 105, 110, 117, 116, 105, 108, 115, 32, 102, 111, 114, 32, 85, 98, 117, 110, 116, 117,
        41, 32, 50, 46, 51, 52, 41, 32, 35, 49, 32, 83, 77, 80, 32, 84, 104, 117, 32, 77,
        97, 114, 32, 49, 48, 32, 49, 51, 58, 51, 49, 58, 52, 55, 32, 67, 83, 84, 32, 50,
        48, 50, 50,
    ];
    assert(v@ =~= log_text());
    v
}

/// Actions of `syslog`; numbers above 10 are `ILLEAGAL`.
#[allow(non_camel_case_types)]
#[derive(Clone, Copy, Debug, PartialEq, Eq, Structural)]
pub enum SyslogAction {
    CLOSE,
    OPEN,
    READ,
    READ_ALL,
    READ_CLEAR,
    CLEAR,
    CONSOLE_OFF,
    CONSOLE_ON,
    CONSOLE_LEVEL,
    SIZE_UNREAD,
    SIZE_BUFFER,
    ILLEAGAL,
}

/// The action numbered `v`.
pub open spec fn syslog_action_of(v: u32) -> SyslogAction {
    if v == 0 {
        SyslogAction::CLOSE
    } else if v == 1 {
        SyslogAction::OPEN
    } else if v == 2 {
        SyslogAction::READ
    } else if v == 3 {
        SyslogAction::READ_ALL
    } else if v == 4 {
        SyslogAction::READ_CLEAR
    } else if v == 5 {
        SyslogAction::CLEAR
    } else if v == 6 {
        SyslogAction::CONSOLE_OFF
    } else if v == 7 {
        SyslogAction::CONSOLE_ON
    } else if v == 8 {
        SyslogAction::CONSOLE_LEVEL
    } else if v == 9 {
        SyslogAction::SIZE_UNREAD
    } else if v == 10 {
        SyslogAction::SIZE_BUFFER
    } else {
        SyslogAction::ILLEAGAL
    }
}

impl SyslogAction {
    /// The action numbered `v`.
    pub fn from_u32(v: u32) -> (a: SyslogAction)
        ensures
            a == syslog_action_of(v),
    {
        match v {
            0 => SyslogAction::CLOSE,
            1 => SyslogAction::OPEN,
            2 => SyslogAction::READ,
            3 => SyslogAction::READ_ALL,
            4 => SyslogAction::READ_CLEAR,
            5 => SyslogAction::CLEAR,
            6 => SyslogAction::CONSOLE_OFF,
            7 => SyslogAction::CONSOLE_ON,
            8 => SyslogAction::CONSOLE_LEVEL,
            9 => SyslogAction::SIZE_UNREAD,
            10 => SyslogAction::SIZE_BUFFER,
            _ => SyslogAction::ILLEAGAL,
        }
    }
}

/// What `syslog` answers: the result and the text to store at the buffer
/// (followed there by a NUL byte) when the action reads.
pub struct SyslogReply {
    pub ret: isize,
    pub text: Option<Vec<u8>>,
}

/// `syslog`: reading actions hand out the first `len` bytes of the log
/// (READ, READ_CLEAR) or the last `len` (READ_ALL), at most the whole log,
/// and return that count; SIZE_UNREAD is 0, SIZE_BUFFER the buffer size;
/// unknown actions are EINVAL; the others succeed and do nothing.
pub fn sys_syslog(type_: u32, len: u32) -> (r: SyslogReply)
    ensures
        ({
            let n: int = if LOG_LEN < len {
                LOG_LEN as int
            } else {
                len as int
            };
            let a = syslog_action_of(type_);
            &&& (a == SyslogAction::READ || a == SyslogAction::READ_CLEAR) ==> (r.ret == n && (r.text matches Some(t)
                && t@ == log_text().subrange(0, n)))
            &&& a == SyslogAction::READ_ALL ==> (r.ret == n && (r.text matches Some(t) && t@
                == log_text().subrange(LOG_LEN - n, LOG_LEN as int)))
            &&& a == SyslogAction::SIZE_UNREAD ==> r.ret == 0 && r.text is None
            &&& a == SyslogAction::SIZE_BUFFER ==> r.ret == LOG_BUF_LEN && r.text is None
            &&& a == SyslogAction::ILLEAGAL ==> r.ret == EINVAL && r.text is None
            &&& (a == SyslogAction::CLOSE || a == SyslogAction::OPEN || a == SyslogAction::CLEAR || a
                == SyslogAction::CONSOLE_OFF || a == SyslogAction::CONSOLE_ON || a
                == SyslogAction::CONSOLE_LEVEL) ==> r.ret == SUCCESS && r.text is None
        }),
{
    let action = SyslogAction::from_u32(type_);
    let n: usize = if LOG_LEN < len as usize {
        LOG_LEN
    } else {
        len as usize
    };
    let log = log_bytes();
    match action {
        SyslogAction::READ | SyslogAction::READ_CLEAR => {
            let t = copy_range(&log, 0, n);
            SyslogReply { ret: n as isize, text: Some(t) }
        },
        SyslogAction::READ_ALL => {
            let t = copy_range(&log, LOG_LEN - n, LOG_LEN);
            SyslogReply { ret: n as isize, text: Some(t) }
        },
        SyslogAction::SIZE_UNREAD => SyslogReply { ret: 0, text: None },
        SyslogAction::SIZE_BUFFER => SyslogReply { ret: LOG_BUF_LEN as isize, text: None },
        SyslogAction::ILLEAGAL => SyslogReply { ret: EINVAL, text: None },
        _ => SyslogReply { ret: SUCCESS, text: None },
    }
}

/// The bytes of `v` from `start` to `end`.
pub fn copy_range(v: &Vec<u8>, start: usize, end: usize) -> (out: Vec<u8>)
    requires
        start <= end <= v@.len(),
    ensures
        out@ == v@.subrange(start as int, end as int),
{
    let mut out: Vec<u8> = Vec::new();
    let mut i = start;
    while i < end
        invariant
            start <= i <= end,
            end <= v@.len(),
            out@ == v@.subrange(start as int, i as int),
        decreases end - i,
    {
        out.push(v[i]);
        i = i + 1;
        assert(out@ =~= v@.subrange(start as int, i as int));
    }
    out
}

/// The architecture the kernel was built for.
#[derive(Clone, Copy, Debug, PartialEq, Eq)]
pub enum Arch {
    Riscv64,
    Loongarch64,
}

/// The structure `uname` fills in user memory: six NUL-terminated fields.
pub struct UTSName {
    pub sysname: [u8; 65],
    pub nodename: [u8; 65],
    pub release: [u8; 65],
    pub version: [u8; 65],
    pub machine: [u8; 65],
    pub domainname: [u8; 65],
}

/// Size of each field of `struct utsname`, and of the whole structure.
pub const UTS_FIELD: usize = 65;
pub const UTS_SIZE: usize = 390;

/// The system name.
pub open spec fn uts_sysname() -> Seq<u8> {
    seq![71u8, 99u8, 111u8, 114u8, 101u8, 0u8]
}

/// The release.
pub open spec fn uts_release() -> Seq<u8> {
    seq![53u8, 46u8, 49u8, 48u8, 46u8, 48u8, 45u8, 49u8, 0u8]
}

/// The version string.
pub open spec fn uts_version(arch: Arch) -> Seq<u8> {
    match arch {
        Arch::Riscv64 => seq![53u8, 46u8, 49u8, 48u8, 46u8, 48u8, 45u8, 49u8, 45u8, 114u8, 118u8, 54u8, 52u8, 0u8],
        Arch::Loongarch64 => seq![53u8, 46u8, 49u8, 48u8, 46u8, 48u8, 45u8, 49u8, 45u8, 108u8, 97u8, 54u8, 52u8, 0u8],
    }
}

/// The build description.
pub open spec fn uts_build() -> Seq<u8> {
    seq![35u8, 49u8, 32u8, 83u8, 77u8, 80u8, 32u8, 71u8, 99u8, 111u8, 114u8, 101u8, 32u8, 53u8, 46u8, 49u8, 48u8, 46u8, 48u8, 45u8, 49u8, 32u8, 40u8, 50u8, 48u8, 50u8, 53u8, 45u8, 48u8, 49u8, 45u8, 49u8, 48u8, 41u8, 0u8]
}

/// The machine name.
pub open spec fn uts_machine(arch: Arch) -> Seq<u8> {
    match arch {
        Arch::Riscv64 => seq![114u8, 118u8, 54u8, 52u8, 0u8],
        Arch::Loongarch64 => seq![108u8, 97u8, 54u8, 52u8, 0u8],
    }
}

/// The user memory after `uname` stores its six strings in the fields of
/// the structure at `buf`; the rest of each field keeps its bytes.
pub open spec fn uname_written(mem: Seq<u8>, buf: int, arch: Arch) -> Seq<u8> {
    let m1 = write_at(mem, buf, uts_sysname());
    let m2 = write_at(m1, buf + 65, uts_release());
    let m3 = write_at(m2, buf + 130, uts_version(arch));
    let m4 = write_at(m3, buf + 195, uts_build());
    let m5 = write_at(m4, buf + 260, uts_machine(arch));
    write_at(m5, buf + 325, seq![0u8])
}

/// Writes `bytes` to user memory at `addr`.
fn put(space: &mut UserSpace, addr: usize, bytes: &Vec<u8>)
    requires
        addr + bytes@.len() <= old(space).mem@.len(),
    ensures
        final(space).mem@ == write_at(old(space).mem@, addr as int, bytes@),
        final(space).mem@.len() == old(space).mem@.len(),
{
    let mut j: usize = 0;
    while j < bytes.len()
        invariant
            j <= bytes@.len(),
            addr + bytes@.len() <= space.mem.len(),
            space.mem@.len() == old(space).mem@.len(),
            space.mem@ == write_at(old(space).mem@, addr as int, bytes@.subrange(0, j as int)),
        decreases bytes.len() - j,
    {
        space.mem.set(addr + j, bytes[j]);
        j = j + 1;
        assert(space.mem@ =~= write_at(old(space).mem@, addr as int, bytes@.subrange(0, j as int)));
    }
    assert(bytes@.subrange(0, bytes@.len() as int) =~= bytes@);
}

/// `uname`: stores the system name, release, version, build, machine and an
/// empty domain name in the structure at `buf`; EFAULT when the structure is
/// not mapped.
pub fn sys_uname(space: &mut UserSpace, buf: usize, arch: Arch) -> (r: isize)
    ensures
        range_ok(old(space).mem@.len(), buf as int, UTS_SIZE as int) ==> r == SUCCESS && final(space).mem@
            == uname_written(old(space).mem@, buf as int, arch),
        !range_ok(old(space).mem@.len(), buf as int, UTS_SIZE as int) ==> r == EFAULT
            && final(space).mem@ == old(space).mem@,
{
    if buf > space.mem.len() || UTS_SIZE > space.mem.len() - buf {
        return EFAULT;
    }
    let sysname: Vec<u8> = vec![71u8, 99u8, 111u8, 114u8, 101u8, 0u8];
    let release: Vec<u8> = vec![53u8, 46u8, 49u8, 48u8, 46u8, 48u8, 45u8, 49u8, 0u8];
    let version: Vec<u8> = match arch {
        Arch::Riscv64 => vec![53u8, 46u8, 49u8, 48u8, 46u8, 48u8, 45u8, 49u8, 45u8, 114u8, 118u8, 54u8, 52u8, 0u8],
        Arch::Loongarch64 => vec![53u8, 46u8, 49u8, 48u8, 46u8, 48u8, 45u8, 49u8, 45u8, 108u8, 97u8, 54u8, 52u8, 0u8],
    };
    let build: Vec<u8> = vec![35u8, 49u8, 32u8, 83u8, 77u8, 80u8, 32u8, 71u8, 99u8, 111u8, 114u8, 101u8, 32u8, 53u8, 46u8, 49u8, 48u8, 46u8, 48u8, 45u8, 49u8, 32u8, 40u8, 50u8, 48u8, 50u8, 53u8, 45u8, 48u8, 49u8, 45u8, 49u8, 48u8, 41u8, 0u8];
    let machine: Vec<u8> = match arch {
        Arch::Riscv64 => vec![114u8, 118u8, 54u8, 52u8, 0u8],
        Arch::Loongarch64 => vec![108u8, 97u8, 54u8, 52u8, 0u8],
    };
    let domain: Vec<u8> = vec![0u8];
    assert(sysname@ =~= uts_sysname());
    assert(release@ =~= uts_release());
    assert(version@ =~= uts_version(arch));
    assert(build@ =~= uts_build());
    assert(machine@ =~= uts_machine(arch));
    assert(domain@ =~= seq![0u8]);
    put(space, buf, &sysname);
    put(space, buf + UTS_FIELD, &release);
    put(space, buf + 2 * UTS_FIELD, &version);
    put(space, buf + 3 * UTS_FIELD, &build);
    put(space, buf + 4 * UTS_FIELD, &machine);
    put(space, buf + 5 * UTS_FIELD, &domain);
    SUCCESS
}


/// System statistics (`struct sysinfo`).
#[derive(Clone, Copy, Debug, PartialEq, Eq)]
pub struct Sysinfo {
    pub uptime: usize,
    pub loads: [usize; 3],
    pub totalram: usize,
    pub freeram: usize,
    pub sharedram: usize,
    pub bufferram: usize,
    pub totalswap: usize,
    pub freeswap: usize,
    pub procs: u16,
    pub totalhigh: usize,
    pub freehigh: usize,
    pub mem_unit: u32,
}

/// Scale of the load averages.
pub const LINUX_SYSINFO_LOADS_SCALE: usize = 65536;

/// The statistics `sysinfo` reports: uptime in seconds; as load averages the
/// present number of tasks, scaled and spread over 1, 5 and 15 minutes; all
/// memory between the start and end of RAM, free frames as free memory; no
/// swap, shared, buffer or high memory; unit 1 byte.
pub open spec fn sysinfo_of(uptime: usize, procs: u16, memory_start: usize, memory_end: usize, free_frames: usize, page_size: usize) -> Sysinfo {
    Sysinfo {
        uptime,
        loads: [
            (procs * 65536 / 60) as usize,
            (procs * 65536 / 300) as usize,
            (procs * 65536 / 900) as usize,
        ],
        totalram: (memory_end - memory_start) as usize,
        freeram: (free_frames * page_size) as usize,
        sharedram: 0,
        bufferram: 0,
        totalswap: 0,
        freeswap: 0,
        procs,
        totalhigh: 0,
        freehigh: 0,
        mem_unit: 1,
    }
}

/// `sysinfo`: the statistics to store, with the number of tasks in the table
/// as the process count; EFAULT when storing them failed.
pub fn sys_sysinfo(
    tm: &TaskManager,
    uptime: usize,
    memory_start: usize,
    memory_end: usize,
    free_frames: usize,
    page_size: usize,
    copy_ok: bool,
) -> (r: (isize, Sysinfo))
    requires
        memory_start <= memory_end,
        free_frames * page_size <= usize::MAX,
    ensures
        r.1 == sysinfo_of(uptime, tm.tasks@.len() as u16, memory_start, memory_end, free_frames, page_size),
        r.0 == if copy_ok {
            SUCCESS
        } else {
            EFAULT
        },
{
    let procs = tm.procs_count() as u16;
    let p = procs as usize;
    let info = Sysinfo {
        uptime,
        loads: [
            p * LINUX_SYSINFO_LOADS_SCALE / 60,
            p * LINUX_SYSINFO_LOADS_SCALE / 300,
            p * LINUX_SYSINFO_LOADS_SCALE / 900,
        ],
        totalram: memory_end - memory_start,
        freeram: free_frames * page_size,
        sharedram: 0,
        bufferram: 0,
        totalswap: 0,
        freeswap: 0,
        procs,
        totalhigh: 0,
        freehigh: 0,
        mem_unit: 1,
    };
    (if copy_ok {
        SUCCESS
    } else {
        EFAULT
    }, info)
}

/// Process times in clock ticks (`struct tms`).
#[derive(Clone, Copy, Debug, PartialEq, Eq)]
pub struct Times {
    pub tms_utime: usize,
    pub tms_stime: usize,
    pub tms_cutime: usize,
    pub tms_cstime: usize,
}

/// `times`: the caller's user and system ticks (children's are 0) to store,
/// and the ticks since boot as result; EFAULT when storing failed.
pub fn sys_times(tm: &TaskManager, now_ticks: usize, copy_ok: bool) -> (r: (isize, Times))
    requires
        tm.wf(),
    ensures
        r.1 == (Times { tms_utime: tm.cur().utime_ticks, tms_stime: tm.cur().stime_ticks, tms_cutime: 0, tms_cstime: 0 }),
        r.0 == if copy_ok {
            now_ticks as isize
        } else {
            EFAULT
        },
{
    let t = tm.tasks[tm.current];
    let times = Times { tms_utime: t.utime_ticks, tms_stime: t.stime_ticks, tms_cutime: 0, tms_cstime: 0 };
    if copy_ok {
        (now_ticks as isize, times)
    } else {
        (EFAULT, times)
    }
}

/// `getrusage`: only the caller (`who` 0) is served, any other `who` is
/// EINVAL and nothing is stored; for the caller 0 once the usage has been
/// stored, EFAULT when storing it failed.
pub fn sys_getrusage(who: isize, copy_ok: bool) -> (r: isize)
    ensures
        r == if who != 0 {
            EINVAL
        } else if copy_ok {
            SUCCESS
        } else {
            EFAULT
        },
{
    if who != 0 {
        EINVAL
    } else if copy_ok {
        SUCCESS
    } else {
        EFAULT
    }
}

/// Bytes of the CPU mask `sched_getaffinity` knows.
pub const CPU_MASK_LEN: usize = 128;

/// The CPU mask handed out: CPU 0 only, cut to `n` bytes.
pub open spec fn cpu_mask(n: nat) -> Seq<u8> {
    Seq::new(n, |k: int| if k == 0 { 1u8 } else { 0u8 })
}

/// `sched_getaffinity`: stores a mask with only CPU 0 set, of
/// `min(cpusetsize, 128)` bytes, and returns its length; EINVAL for a null
/// mask or a size of 0, EFAULT when the mask is not mapped.
pub fn sys_sched_getaffinity(space: &mut UserSpace, _pid: usize, cpusetsize: usize, mask: usize) -> (r: isize)
    ensures
        (mask == 0 || cpusetsize == 0) ==> r == EINVAL && final(space).mem@ == old(space).mem@,
        ({
            let n: int = if cpusetsize < CPU_MASK_LEN { cpusetsize as int } else { CPU_MASK_LEN as int };
            &&& (mask != 0 && cpusetsize != 0 && !range_ok(old(space).mem@.len(), mask as int, n))
                ==> r == EFAULT && final(space).mem@ == old(space).mem@
            &&& (mask != 0 && cpusetsize != 0 && range_ok(old(space).mem@.len(), mask as int, n))
                ==> r == n && final(space).mem@ == write_at(old(space).mem@, mask as int, cpu_mask(n as nat))
        }),
{
    if mask == 0 || cpusetsize == 0 {
        return EINVAL;
    }
    let n = if cpusetsize < CPU_MASK_LEN {
        cpusetsize
    } else {
        CPU_MASK_LEN
    };
    if mask > space.mem.len() || n > space.mem.len() - mask {
        return EFAULT;
    }
    let mut bytes: Vec<u8> = Vec::new();
    let mut k: usize = 0;
    while k < n
        invariant
            k <= n,
            bytes@ == cpu_mask(k as nat),
        decreases n - k,
    {
        bytes.push(if k == 0 { 1u8 } else { 0u8 });
        k = k + 1;
        assert(bytes@ =~= cpu_mask(k as nat));
    }
    put(space, mask, &bytes);
    n as isize
}

/// `sched_setaffinity` accepts any mask.
pub fn sys_sched_setaffinity(_pid: usize, _cpusetsize: usize, _mask: usize) -> (r: isize)
    ensures
        r == SUCCESS,
{
    SUCCESS
}

/// Highest priority of a policy: 99 for FIFO (1) and round robin (2), else 0.
pub fn sys_sched_get_priority_max(policy: usize) -> (r: isize)
    ensures
        r == if policy == 1 || policy == 2 { 99isize } else { 0isize },
{
    match policy {
        1 | 2 => 99,
        _ => 0,
    }
}

/// Lowest priority of a policy: 1 for FIFO (1) and round robin (2), else 0.
pub fn sys_sched_get_priority_min(policy: usize) -> (r: isize)
    ensures
        r == if policy == 1 || policy == 2 { 1isize } else { 0isize },
{
    match policy {
        1 | 2 => 1,
        _ => 0,
    }
}

/// Scheduling parameters are accepted and ignored.
pub fn sys_sched_setparam(_pid: usize, _param: usize) -> (r: isize)
    ensures
        r == SUCCESS,
{
    SUCCESS
}

pub fn sys_sched_setscheduler(_pid: usize, _policy: usize, _param: usize) -> (r: isize)
    ensures
        r == SUCCESS,
{
    SUCCESS
}

/// Every task runs under the normal policy (0).
pub fn sys_sched_getscheduler(_pid: usize) -> (r: isize)
    ensures
        r == 0,
{
    0
}

pub fn sys_sched_getparam(_pid: usize, _param: usize) -> (r: isize)
    ensures
        r == SUCCESS,
{
    SUCCESS
}

/// No task is real-time: EINVAL.
pub fn sys_sched_rr_get_interval(_pid: usize, _tp: usize) -> (r: isize)
    ensures
        r == EINVAL,
{
    EINVAL
}

pub fn sys_setpriority(_which: usize, _who: usize, _prio: usize) -> (r: isize)
    ensures
        r == SUCCESS,
{
    SUCCESS
}

/// The default nice value, 20.
pub fn sys_getpriority(_which: usize, _who: usize) -> (r: isize)
    ensures
        r == 20,
{
    20
}

/// `getgroups`: the only group is root (0). A size below 1 asks for the
/// count; otherwise group 0 is stored at `list`, which must be mapped. The
/// result is 1 either way.
pub fn sys_getgroups(space: &mut UserSpace, size: i32, list: usize) -> (r: isize)
    requires
        size >= 1 ==> range_ok(old(space).mem@.len(), list as int, 4),
    ensures
        r == 1,
        size < 1 ==> final(space).mem@ == old(space).mem@,
        size >= 1 ==> final(space).mem@ == write_at(old(space).mem@, list as int, seq![0u8, 0u8, 0u8, 0u8]),
{
    if size < 1 {
        return 1;
    }
    let gid: Vec<u8> = vec![0u8, 0u8, 0u8, 0u8];
    assert(gid@ =~= seq![0u8, 0u8, 0u8, 0u8]);
    put(space, list, &gid);
    1
}

pub fn sys_setgroups(_size: usize, _list: usize) -> (r: isize)
    ensures
        r == SUCCESS,
{
    SUCCESS
}

/// Pending signals are not reported.
pub fn sys_rt_sigpending(_set: usize, _sigsetsize: usize) -> (r: isize)
    ensures
        r == SUCCESS,
{
    SUCCESS
}

/// Every pair of objects compares equal (0).
pub fn sys_kcmp(_pid1: usize, _pid2: usize, _type_: usize, _idx1: usize, _idx2: usize) -> (r: isize)
    ensures
        r == 0,
{
    0
}

pub fn sys_prctl(_option: usize, _arg2: usize, _arg3: usize, _arg4: usize, _arg5: usize, _arg6: usize) -> (r: isize)
    ensures
        r == SUCCESS,
{
    SUCCESS
}

/// Memory barriers need no work here.
pub fn sys_memorybarrier(_cmd: usize, _flags: usize, _cpu_id: usize) -> (r: isize)
    ensures
        r == SUCCESS,
{
    SUCCESS
}

/// Locking memory always succeeds.
pub fn sys_mlock(_addr: usize, _len: usize) -> (r: isize)
    ensures
        r == SUCCESS,
{
    SUCCESS
}

pub fn sys_munlock(_addr: usize, _len: usize) -> (r: isize)
    ensures
        r == SUCCESS,
{
    SUCCESS
}

pub fn sys_mlockall(_flags: usize) -> (r: isize)
    ensures
        r == SUCCESS,
{
    SUCCESS
}

pub fn sys_munlockall() -> (r: isize)
    ensures
        r == SUCCESS,
{
    SUCCESS
}

/// Residency is not reported; the call succeeds.
pub fn sys_mincore(_addr: usize, _length: usize, _vec: usize) -> (r: isize)
    ensures
        r == SUCCESS,
{
    SUCCESS
}

/// Advice is accepted and ignored.
pub fn sys_madvise(_addr: usize, _length: usize, _advice: usize) -> (r: isize)
    ensures
        r == SUCCESS,
{
    SUCCESS
}

/// Yielding succeeds (the caller then gives up the hart).
pub fn sys_yield() -> (r: isize)
    ensures
        r == SUCCESS,
{
    SUCCESS
}

/// The result of unmapping or changing protection: 0 on success, else the
/// error the memory set gave.
pub fn sys_munmap(result: Result<(), isize>) -> (r: isize)
    ensures
        result is Ok ==> r == SUCCESS,
        result matches Err(e) ==> r == e,
{
    match result {
        Ok(_) => SUCCESS,
        Err(e) => e,
    }
}

/// As `sys_munmap`.
pub fn sys_mprotect(result: Result<(), isize>) -> (r: isize)
    ensures
        result is Ok ==> r == SUCCESS,
        result matches Err(e) ==> r == e,
{
    sys_munmap(result)
}

} // verus!
