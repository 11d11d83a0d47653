//! Unix domain sockets: two pipes per connected pair, with shutdown flags
//! and buffer sizes; the descriptor table that holds them.
use vstd::prelude::*;
use crate::errno::{EBADF, EMFILE, EPIPE, EOPNOTSUPP, ENOTDIR, ESPIPE, EINVAL};
use crate::pipe::Pipe;
use crate::stat::{DevNum, Stat, DiskInodeType, S_IFSOCK};

verus! {

/// Socket type bits.
#[derive(Clone, Copy, Debug, PartialEq, Eq)]
pub struct SocketType {
    pub bits: u32,
}

pub const SOCK_STREAM: u32 = 1;
pub const SOCK_DGRAM: u32 = 2;
pub const SOCK_RAW: u32 = 3;
pub const SOCK_NONBLOCK: u32 = 0x800;
pub const SOCK_CLOEXEC: u32 = 0x80000;
/// Every bit a socket type may hold: the kinds 1 to 10 and the two flags.
pub const SOCKET_TYPE_BITS: u32 = 0x8080f;

/// Shutdown directions.
pub const SHUT_RD: u32 = 0;
pub const SHUT_WR: u32 = 1;
pub const SHUT_RDWR: u32 = 2;

/// Bytes of a Unix socket's send and receive buffers when created.
pub const UNIX_BUF_SIZE: usize = 256;

/// An address and port; `addr` is an IPv4 address when present.
#[derive(Clone, Copy, Debug, PartialEq, Eq)]
pub struct ListenEndpoint {
    pub addr: Option<[u8; 4]>,
    pub port: u16,
}

impl SocketType {
    /// The type with these bits, when every bit is known.
    pub fn from_bits(bits: u32) -> (r: Option<SocketType>)
        ensures
            bits & !SOCKET_TYPE_BITS == 0 ==> r == Some(SocketType { bits }),
            bits & !SOCKET_TYPE_BITS != 0 ==> r is None,
    {
        if bits & !SOCKET_TYPE_BITS == 0 {
            Some(SocketType { bits })
        } else {
            None
        }
    }

    /// All bits of `flag` are set.
    pub fn contains(&self, flag: u32) -> (b: bool)
        ensures
            b == (self.bits & flag == flag),
    {
        self.bits & flag == flag
    }
}

/// One end of a connected pair of Unix sockets.
#[derive(Clone, Copy, Debug, PartialEq, Eq)]
pub struct UnixSocket {
    /// Index of the pipe this end reads.
    pub read_end: usize,
    /// Index of the pipe this end writes.
    pub write_end: usize,
    pub socket_type: SocketType,
    pub shut_rd: bool,
    pub shut_wr: bool,
    pub recv_buf_size: usize,
    pub send_buf_size: usize,
}

/// An open descriptor: its flags and the socket it refers to.
#[derive(Clone, Copy, Debug, PartialEq, Eq)]
pub struct FileDescriptor {
    pub cloexec: bool,
    pub nonblock: bool,
    pub socket: usize,
}

/// Pipes, sockets and the descriptor table of the calling process.
pub struct NetState {
    pub pipes: Vec<Pipe>,
    pub sockets: Vec<UnixSocket>,
    pub fds: Vec<Option<FileDescriptor>>,
    /// Most descriptors the table may hold.
    pub fd_limit: usize,
    /// Capacity of a new pipe.
    pub pipe_capacity: usize,
}

/// Number of free descriptor slots: empty entries plus room to grow.
pub open spec fn free_slots(fds: Seq<Option<FileDescriptor>>, limit: nat) -> nat {
    empty_count(fds) + if fds.len() < limit {
        (limit - fds.len()) as nat
    } else {
        0
    }
}

/// Number of empty entries.
pub open spec fn empty_count(fds: Seq<Option<FileDescriptor>>) -> nat
    decreases fds.len(),
{
    if fds.len() == 0 {
        0
    } else {
        empty_count(fds.drop_last()) + if fds.last() is None {
            1nat
        } else {
            0
        }
    }
}

/// First empty entry at or after `i`.
pub open spec fn first_empty_from(fds: Seq<Option<FileDescriptor>>, i: int) -> Option<int>
    decreases fds.len() - i,
{
    if i < 0 || i >= fds.len() {
        None
    } else if fds[i] is None {
        Some(i)
    } else {
        first_empty_from(fds, i + 1)
    }
}

/// The descriptor `insert` hands out: the lowest empty entry, else a new
/// entry at the end while the table is below its limit.
pub open spec fn next_fd(fds: Seq<Option<FileDescriptor>>, limit: nat) -> Option<int> {
    match first_empty_from(fds, 0) {
        Some(i) => Some(i),
        None => if fds.len() < limit {
            Some(fds.len() as int)
        } else {
            None
        },
    }
}

/// The table after `d` is placed at `fd`.
pub open spec fn placed(fds: Seq<Option<FileDescriptor>>, fd: int, d: FileDescriptor) -> Seq<
    Option<FileDescriptor>,
> {
    if fd < fds.len() {
        fds.update(fd, Some(d))
    } else {
        fds.push(Some(d))
    }
}

proof fn lemma_first_empty_bounds(fds: Seq<Option<FileDescriptor>>, i: int)
    ensures
        first_empty_from(fds, i) matches Some(j) ==> (0 <= j < fds.len() && i <= j && fds[j] is None),
        first_empty_from(fds, i) is None && 0 <= i ==> forall|k: int| i <= k < fds.len() ==> fds[k] is Some,
    decreases fds.len() - i,
{
    if 0 <= i < fds.len() {
        lemma_first_empty_bounds(fds, i + 1);
    }
}

/// The descriptor `insert` hands out is an existing entry or the next one.
pub proof fn lemma_next_fd_bounds(fds: Seq<Option<FileDescriptor>>, limit: nat)
    ensures
        next_fd(fds, limit) matches Some(i) ==> 0 <= i <= fds.len(),
{
    lemma_first_empty_bounds(fds, 0);
}

proof fn lemma_no_empty_count(fds: Seq<Option<FileDescriptor>>)
    requires
        forall|k: int| 0 <= k < fds.len() ==> fds[k] is Some,
    ensures
        empty_count(fds) == 0,
    decreases fds.len(),
{
    if fds.len() > 0 {
        lemma_no_empty_count(fds.drop_last());
    }
}

proof fn lemma_count_update(fds: Seq<Option<FileDescriptor>>, i: int, d: FileDescriptor)
    requires
        0 <= i < fds.len(),
        fds[i] is None,
    ensures
        empty_count(fds.update(i, Some(d))) + 1 == empty_count(fds),
    decreases fds.len(),
{
    let u = fds.update(i, Some(d));
    if i == fds.len() - 1 {
        assert(u.drop_last() =~= fds.drop_last());
    } else {
        assert(u.drop_last() =~= fds.drop_last().update(i, Some(d)));
        lemma_count_update(fds.drop_last(), i, d);
    }
}

proof fn lemma_count_push(fds: Seq<Option<FileDescriptor>>, d: FileDescriptor)
    ensures
        empty_count(fds.push(Some(d))) == empty_count(fds),
{
    assert(fds.push(Some(d)).drop_last() =~= fds);
}

impl NetState {
    /// Every descriptor names a socket and every socket names two pipes.
    pub open spec fn wf(&self) -> bool {
        &&& forall|i: int|
            #![trigger self.fds@[i]]
            0 <= i < self.fds@.len() ==> (self.fds@[i] matches Some(d) ==> d.socket
                < self.sockets@.len())
        &&& forall|i: int|
            #![trigger self.sockets@[i]]
            0 <= i < self.sockets@.len() ==> self.sockets@[i].read_end < self.pipes@.len()
                && self.sockets@[i].write_end < self.pipes@.len()
        &&& forall|i: int| 0 <= i < self.pipes@.len() ==> #[trigger] self.pipes@[i].wf()
        &&& self.fds@.len() <= self.fd_limit
    }

    /// The socket behind descriptor `fd`, if it is open.
    pub open spec fn socket_of(&self, fd: int) -> Option<int> {
        if 0 <= fd < self.fds@.len() {
            match self.fds@[fd] {
                Some(d) => Some(d.socket as int),
                None => None,
            }
        } else {
            None
        }
    }

    /// The socket index behind descriptor `fd`, or EBADF.
    pub fn get_socket(&self, fd: u32) -> (r: Result<usize, isize>)
        requires
            self.wf(),
        ensures
            match self.socket_of(fd as int) {
                Some(s) => r == Ok::<usize, isize>(s as usize) && s < self.sockets@.len(),
                None => r == Err::<usize, isize>(EBADF),
            },
    {
        let fd = fd as usize;
        if fd < self.fds.len() {
            match self.fds[fd] {
                Some(d) => Ok(d.socket),
                None => Err(EBADF),
            }
        } else {
            Err(EBADF)
        }
    }

    /// Places a descriptor at the lowest empty entry, or at a new entry below
    /// the limit; EMFILE when the table is full.
    pub fn insert(&mut self, d: FileDescriptor) -> (r: Result<usize, isize>)
        requires
            old(self).wf(),
            d.socket < old(self).sockets@.len(),
        ensures
            final(self).wf(),
            final(self).pipes@ == old(self).pipes@,
            final(self).sockets@ == old(self).sockets@,
            final(self).fd_limit == old(self).fd_limit,
            final(self).pipe_capacity == old(self).pipe_capacity,
            match next_fd(old(self).fds@, old(self).fd_limit as nat) {
                Some(fd) => r == Ok::<usize, isize>(fd as usize) && final(self).fds@ == placed(
                    old(self).fds@,
                    fd,
                    d,
                ),
                None => r == Err::<usize, isize>(EMFILE) && final(self).fds@ == old(self).fds@,
            },
            r is Ok ==> free_slots(final(self).fds@, final(self).fd_limit as nat) + 1 == free_slots(
                old(self).fds@,
                old(self).fd_limit as nat,
            ),
            free_slots(old(self).fds@, old(self).fd_limit as nat) > 0 ==> r is Ok,
    {
        let mut i: usize = 0;
        while i < self.fds.len()
            invariant
                i <= self.fds.len(),
                first_empty_from(self.fds@, 0) == first_empty_from(self.fds@, i as int),
                self.wf(),
                d.socket < self.sockets@.len(),
                self.pipes@ == old(self).pipes@,
                self.sockets@ == old(self).sockets@,
                self.fds@ == old(self).fds@,
                self.fd_limit == old(self).fd_limit,
                self.pipe_capacity == old(self).pipe_capacity,
            decreases self.fds.len() - i,
        {
            if self.fds[i].is_none() {
                proof {
                    lemma_first_empty_bounds(self.fds@, 0);
                    lemma_count_update(self.fds@, i as int, d);
                }
                self.fds.set(i, Some(d));
                return Ok(i);
            }
            i = i + 1;
        }
        proof {
            lemma_first_empty_bounds(self.fds@, 0);
            lemma_no_empty_count(self.fds@);
        }
        if self.fds.len() < self.fd_limit {
            proof {
                lemma_count_push(self.fds@, d);
            }
            self.fds.push(Some(d));
            Ok(self.fds.len() - 1)
        } else {
            Err(EMFILE)
        }
    }
}

impl UnixSocket {
    /// A socket on the given pipes, open both ways, with buffers of
    /// `UNIX_BUF_SIZE` bytes.
    pub fn new(read_end: usize, write_end: usize, socket_type: SocketType) -> (s: UnixSocket)
        ensures
            s == (UnixSocket {
                read_end,
                write_end,
                socket_type,
                shut_rd: false,
                shut_wr: false,
                recv_buf_size: UNIX_BUF_SIZE,
                send_buf_size: UNIX_BUF_SIZE,
            }),
    {
        UnixSocket {
            read_end,
            write_end,
            socket_type,
            shut_rd: false,
            shut_wr: false,
            recv_buf_size: UNIX_BUF_SIZE,
            send_buf_size: UNIX_BUF_SIZE,
        }
    }

    /// Binding succeeds and changes nothing.
    pub fn bind(&self, _addr: ListenEndpoint) -> (r: Result<usize, isize>)
        ensures
            r == Ok::<usize, isize>(0),
    {
        Ok(0)
    }

    pub fn listen(&self) -> (r: Result<usize, isize>)
        ensures
            r == Ok::<usize, isize>(0),
    {
        Ok(0)
    }

    /// The pair is connected already: connecting succeeds.
    pub fn connect(&self, _addr_buf: &[u8]) -> (r: Result<usize, isize>)
        ensures
            r == Ok::<usize, isize>(0),
    {
        Ok(0)
    }

    /// A pair does not accept connections.
    pub fn accept(&self, _sockfd: u32, _addr: usize, _addrlen: usize) -> (r: Result<usize, isize>)
        ensures
            r == Err::<usize, isize>(EOPNOTSUPP),
    {
        Err(EOPNOTSUPP)
    }

    pub fn socket_type(&self) -> (t: SocketType)
        ensures
            t == self.socket_type,
    {
        self.socket_type
    }

    pub fn recv_buf_size(&self) -> (n: usize)
        ensures
            n == self.recv_buf_size,
    {
        self.recv_buf_size
    }

    pub fn send_buf_size(&self) -> (n: usize)
        ensures
            n == self.send_buf_size,
    {
        self.send_buf_size
    }

    pub fn set_recv_buf_size(&mut self, size: usize)
        ensures
            *final(self) == (UnixSocket { recv_buf_size: size, ..*old(self) }),
    {
        self.recv_buf_size = size;
    }

    pub fn set_send_buf_size(&mut self, size: usize)
        ensures
            *final(self) == (UnixSocket { send_buf_size: size, ..*old(self) }),
    {
        self.send_buf_size = size;
    }

    /// The local endpoint: address 0.0.0.0, port 0.
    pub fn loacl_endpoint(&self) -> (e: ListenEndpoint)
        ensures
            e == (ListenEndpoint { addr: Some([0u8, 0u8, 0u8, 0u8]), port: 0 }),
    {
        ListenEndpoint { addr: Some([0u8, 0u8, 0u8, 0u8]), port: 0 }
    }

    /// No remote endpoint.
    pub fn remote_endpoint(&self) -> (e: Option<ListenEndpoint>)
        ensures
            e is None,
    {
        None
    }

    /// Shuts the read side for `SHUT_RD` and `SHUT_RDWR`, the write side for
    /// `SHUT_WR` and `SHUT_RDWR`; other values change nothing. Always Ok.
    pub fn shutdown(&mut self, how: u32) -> (r: Result<(), isize>)
        ensures
            r is Ok,
            *final(self) == (UnixSocket {
                shut_rd: old(self).shut_rd || how == SHUT_RD || how == SHUT_RDWR,
                shut_wr: old(self).shut_wr || how == SHUT_WR || how == SHUT_RDWR,
                ..*old(self)
            }),
    {
        if how == SHUT_RD || how == SHUT_RDWR {
            self.shut_rd = true;
        }
        if how == SHUT_WR || how == SHUT_RDWR {
            self.shut_wr = true;
        }
        Ok(())
    }

    pub fn set_nagle_enabled(&self, _enabled: bool) -> (r: Result<usize, isize>)
        ensures
            r == Err::<usize, isize>(EOPNOTSUPP),
    {
        Err(EOPNOTSUPP)
    }

    pub fn set_keep_alive(&self, _enabled: bool) -> (r: Result<usize, isize>)
        ensures
            r == Err::<usize, isize>(EOPNOTSUPP),
    {
        Err(EOPNOTSUPP)
    }

    /// A copy with the same pipes, flags and sizes.
    pub fn deep_clone(&self) -> (s: UnixSocket)
        ensures
            s == *self,
    {
        *self
    }

    /// A fresh handle on the same pipes: open both ways, default sizes.
    pub fn open(&self, _flags: u32, _special_use: bool) -> (s: UnixSocket)
        ensures
            s == (UnixSocket {
                read_end: self.read_end,
                write_end: self.write_end,
                socket_type: self.socket_type,
                shut_rd: false,
                shut_wr: false,
                recv_buf_size: UNIX_BUF_SIZE,
                send_buf_size: UNIX_BUF_SIZE,
            }),
    {
        UnixSocket::new(self.read_end, self.write_end, self.socket_type)
    }

    pub fn get_size(&self) -> (n: usize)
        ensures
            n == 0,
    {
        0
    }

    /// A socket on device 0:6, readable and writable by all.
    pub fn get_stat(&self) -> (st: Stat)
        ensures
            st == (Stat {
                st_dev: DevNum { major: 0, minor: 6 },
                st_ino: 1,
                st_mode: S_IFSOCK | 0o666,
                st_nlink: 1,
                st_rdev: DevNum { major: 0, minor: 0 },
                st_size: 0,
                st_atime_sec: 0,
                st_mtime_sec: 0,
                st_ctime_sec: 0,
            }),
    {
        Stat {
            st_dev: DevNum { major: 0, minor: 6 },
            st_ino: 1,
            st_mode: S_IFSOCK | 0o666,
            st_nlink: 1,
            st_rdev: DevNum { major: 0, minor: 0 },
            st_size: 0,
            st_atime_sec: 0,
            st_mtime_sec: 0,
            st_ctime_sec: 0,
        }
    }

    pub fn get_file_type(&self) -> (t: DiskInodeType)
        ensures
            t == DiskInodeType::File,
    {
        DiskInodeType::File
    }

    pub fn open_subfile(&self) -> (r: Result<(), isize>)
        ensures
            r == Err::<(), isize>(ENOTDIR),
    {
        Err(ENOTDIR)
    }

    pub fn create(&self, _name: &str, _file_type: DiskInodeType) -> (r: Result<(), isize>)
        ensures
            r == Err::<(), isize>(EOPNOTSUPP),
    {
        Err(EOPNOTSUPP)
    }

    pub fn link_child(&self, _name: &str) -> (r: Result<(), isize>)
        ensures
            r == Err::<(), isize>(EOPNOTSUPP),
    {
        Err(EOPNOTSUPP)
    }

    pub fn unlink(&self, _delete: bool) -> (r: Result<(), isize>)
        ensures
            r == Err::<(), isize>(EOPNOTSUPP),
    {
        Err(EOPNOTSUPP)
    }

    pub fn lseek(&self, _offset: isize) -> (r: Result<usize, isize>)
        ensures
            r == Err::<usize, isize>(ESPIPE),
    {
        Err(ESPIPE)
    }

    pub fn modify_size(&self, _diff: isize) -> (r: Result<(), isize>)
        ensures
            r == Err::<(), isize>(EOPNOTSUPP),
    {
        Err(EOPNOTSUPP)
    }

    pub fn truncate_size(&self, _new_size: usize) -> (r: Result<(), isize>)
        ensures
            r == Err::<(), isize>(EOPNOTSUPP),
    {
        Err(EOPNOTSUPP)
    }

    pub fn oom(&self) -> (n: usize)
        ensures
            n == 0,
    {
        0
    }

    /// The pair has hung up once either side is shut.
    pub fn hang_up(&self) -> (b: bool)
        ensures
            b == (self.shut_rd || self.shut_wr),
    {
        self.shut_rd || self.shut_wr
    }

    pub fn fcntl(&self, _cmd: u32, _arg: u32) -> (r: isize)
        ensures
            r == EINVAL,
    {
        EINVAL
    }

    /// Readable unless the read side is shut.
    pub fn readable(&self) -> (b: bool)
        ensures
            b == !self.shut_rd,
    {
        !self.shut_rd
    }

    /// Writable unless the write side is shut.
    pub fn writable(&self) -> (b: bool)
        ensures
            b == !self.shut_wr,
    {
        !self.shut_wr
    }
}

/// The value a write on a socket whose write side is shut returns: EPIPE,
/// as an unsigned count.
pub open spec fn epipe_count() -> usize {
    EPIPE as usize
}

/// The bytes a read of up to `max` bytes on socket `s` returns: none when
/// its read side is shut, else the oldest bytes of the pipe it reads.
pub open spec fn read_data(ns: &NetState, s: int, max: nat) -> Seq<u8> {
    let sock = ns.sockets@[s];
    let data = ns.pipes@[sock.read_end as int].data@;
    if sock.shut_rd {
        Seq::empty()
    } else if data.len() < max {
        data
    } else {
        data.subrange(0, max as int)
    }
}

/// The pipes after that read: the bytes read leave the pipe.
pub open spec fn read_effect(old: &NetState, new: &NetState, s: int, max: nat) -> bool {
    let sock = old.sockets@[s];
    let p = sock.read_end as int;
    let data = old.pipes@[p].data@;
    let n = read_data(old, s, max).len() as int;
    &&& new.pipes@.len() == old.pipes@.len()
    &&& sock.shut_rd ==> new.pipes@ == old.pipes@
    &&& !sock.shut_rd ==> {
        &&& new.pipes@[p].data@ == data.subrange(n, data.len() as int)
        &&& new.pipes@[p].capacity == old.pipes@[p].capacity
        &&& forall|q: int|
            0 <= q < old.pipes@.len() && q != p ==> #[trigger] new.pipes@[q] == old.pipes@[q]
    }
}

/// The count a write of `buf` on socket `s` returns: EPIPE as a count when
/// its write side is shut, else as much as the pipe has room for.
pub open spec fn write_count(ns: &NetState, s: int, buf: Seq<u8>) -> usize {
    let sock = ns.sockets@[s];
    let pipe = ns.pipes@[sock.write_end as int];
    if sock.shut_wr {
        epipe_count()
    } else if buf.len() < pipe.capacity - pipe.data@.len() {
        buf.len() as usize
    } else {
        (pipe.capacity - pipe.data@.len()) as usize
    }
}

/// The pipes after that write: the bytes written join the pipe.
pub open spec fn write_effect(old: &NetState, new: &NetState, s: int, buf: Seq<u8>) -> bool {
    let sock = old.sockets@[s];
    let p = sock.write_end as int;
    let data = old.pipes@[p].data@;
    let n = write_count(old, s, buf) as int;
    &&& new.pipes@.len() == old.pipes@.len()
    &&& sock.shut_wr ==> new.pipes@ == old.pipes@
    &&& !sock.shut_wr ==> {
        &&& new.pipes@[p].data@ == data + buf.subrange(0, n)
        &&& new.pipes@[p].capacity == old.pipes@[p].capacity
        &&& forall|q: int|
            0 <= q < old.pipes@.len() && q != p ==> #[trigger] new.pipes@[q] == old.pipes@[q]
    }
}

impl NetState {
    /// Reads up to `max` bytes from socket `s`: nothing once its read side is
    /// shut, else the oldest bytes of the pipe it reads.
    pub fn read(&mut self, s: usize, max: usize) -> (out: Vec<u8>)
        requires
            old(self).wf(),
            s < old(self).sockets@.len(),
        ensures
            final(self).wf(),
            final(self).sockets@ == old(self).sockets@,
            final(self).fds@ == old(self).fds@,
            final(self).fd_limit == old(self).fd_limit,
            final(self).pipe_capacity == old(self).pipe_capacity,
            out@ == read_data(old(self), s as int, max as nat),
            read_effect(old(self), final(self), s as int, max as nat),
    {
        let sock = self.sockets[s];
        if sock.shut_rd {
            return Vec::new();
        }
        let p = sock.read_end;
        assert(self.sockets@[s as int].read_end < self.pipes@.len());
        assert(self.pipes@[p as int].wf());
        let out = self.pipes[p].read(max);
        assert forall|i: int| 0 <= i < self.pipes@.len() implies #[trigger] self.pipes@[i].wf() by {
            if i != p {
                assert(self.pipes@[i] == old(self).pipes@[i]);
            }
        }
        out
    }

    /// Writes `buf` to socket `s`: EPIPE (as a count) once its write side is
    /// shut, else as much as the pipe it writes has room for.
    pub fn write(&mut self, s: usize, buf: &[u8]) -> (n: usize)
        requires
            old(self).wf(),
            s < old(self).sockets@.len(),
        ensures
            final(self).wf(),
            final(self).sockets@ == old(self).sockets@,
            final(self).fds@ == old(self).fds@,
            final(self).fd_limit == old(self).fd_limit,
            final(self).pipe_capacity == old(self).pipe_capacity,
            n == write_count(old(self), s as int, buf@),
            write_effect(old(self), final(self), s as int, buf@),
    {
        let sock = self.sockets[s];
        if sock.shut_wr {
            return EPIPE as usize;
        }
        let p = sock.write_end;
        assert(self.sockets@[s as int].write_end < self.pipes@.len());
        assert(self.pipes@[p as int].wf());
        let n = self.pipes[p].write(buf);
        assert forall|i: int| 0 <= i < self.pipes@.len() implies #[trigger] self.pipes@[i].wf() by {
            if i != p {
                assert(self.pipes@[i] == old(self).pipes@[i]);
            }
        }
        n
    }

    /// Data is waiting and the read side is open.
    pub fn r_ready(&self, s: usize) -> (b: bool)
        requires
            self.wf(),
            s < self.sockets@.len(),
        ensures
            b == (!self.sockets@[s as int].shut_rd
                && self.pipes@[self.sockets@[s as int].read_end as int].data@.len() > 0),
    {
        let sock = self.sockets[s];
        !sock.shut_rd && self.pipes[sock.read_end].r_ready()
    }

    /// There is room and the write side is open.
    pub fn w_ready(&self, s: usize) -> (b: bool)
        requires
            self.wf(),
            s < self.sockets@.len(),
        ensures
            b == (!self.sockets@[s as int].shut_wr
                && self.pipes@[self.sockets@[s as int].write_end as int].data@.len()
                < self.pipes@[self.sockets@[s as int].write_end as int].capacity),
    {
        let sock = self.sockets[s];
        !sock.shut_wr && self.pipes[sock.write_end].w_ready()
    }
}

/// Creates two pipes and a connected pair of sockets on them: the first
/// socket reads the first pipe and writes the second, the second socket the
/// other way round. Returns the indices of the two sockets.
pub fn make_unix_socket_pair(ns: &mut NetState, socket_type: SocketType) -> (r: (usize, usize))
    requires
        old(ns).wf(),
    ensures
        final(ns).wf(),
        final(ns).fds@ == old(ns).fds@,
        final(ns).fd_limit == old(ns).fd_limit,
        final(ns).pipe_capacity == old(ns).pipe_capacity,
        ({
            let p1 = old(ns).pipes@.len() as usize;
            let p2 = (old(ns).pipes@.len() + 1) as usize;
            &&& final(ns).pipes@.len() == old(ns).pipes@.len() + 2
            &&& forall|q: int| 0 <= q < old(ns).pipes@.len() ==> #[trigger] final(ns).pipes@[q] == old(ns).pipes@[q]
            &&& final(ns).pipes@[p1 as int].data@ == Seq::<u8>::empty()
            &&& final(ns).pipes@[p2 as int].data@ == Seq::<u8>::empty()
            &&& final(ns).pipes@[p1 as int].capacity == old(ns).pipe_capacity
            &&& final(ns).pipes@[p2 as int].capacity == old(ns).pipe_capacity
            &&& r.0 == old(ns).sockets@.len()
            &&& r.1 == old(ns).sockets@.len() + 1
            &&& final(ns).sockets@ == old(ns).sockets@.push(UnixSocket::spec_new(p1, p2, socket_type)).push(
                UnixSocket::spec_new(p2, p1, socket_type),
            )
        }),
{
    let p1 = ns.pipes.len();
    ns.pipes.push(Pipe::new(ns.pipe_capacity));
    let p2 = ns.pipes.len();
    ns.pipes.push(Pipe::new(ns.pipe_capacity));
    let s1 = ns.sockets.len();
    ns.sockets.push(UnixSocket::new(p1, p2, socket_type));
    let s2 = ns.sockets.len();
    ns.sockets.push(UnixSocket::new(p2, p1, socket_type));
    (s1, s2)
}

impl UnixSocket {
    /// The socket `new` builds.
    pub open spec fn spec_new(read_end: usize, write_end: usize, socket_type: SocketType) -> UnixSocket {
        UnixSocket {
            read_end,
            write_end,
            socket_type,
            shut_rd: false,
            shut_wr: false,
            recv_buf_size: UNIX_BUF_SIZE,
            send_buf_size: UNIX_BUF_SIZE,
        }
    }
}

} // verus!
