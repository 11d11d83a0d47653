//! Socket system calls over the descriptor table of Unix domain sockets.
use vstd::prelude::*;
use crate::errno::{SUCCESS, EINVAL, EAFNOSUPPORT, EOPNOTSUPP};
use crate::unix::{
    NetState, UnixSocket, SocketType, FileDescriptor, ListenEndpoint, make_unix_socket_pair,
    next_fd, placed, free_slots, lemma_next_fd_bounds, SOCK_STREAM, SOCK_DGRAM, SOCK_CLOEXEC, SOCK_NONBLOCK,
    SOCKET_TYPE_BITS, epipe_count, read_data, read_effect, write_count, write_effect, SHUT_RD, SHUT_WR,
};

verus! {

/// Option levels.
pub const SOL_SOCKET: u32 = 1;
pub const SOL_TCP: u32 = 6;
/// Option names.
pub const TCP_NODELAY: u32 = 1;
pub const TCP_MAXSEG: u32 = 2;
pub const TCP_CONGESTION: u32 = 13;
pub const SO_REUSEADDR: u32 = 2;
pub const SO_SNDBUF: u32 = 7;
pub const SO_RCVBUF: u32 = 8;
pub const SO_KEEPALIVE: u32 = 9;
/// The Unix address family.
pub const AF_UNIX: u16 = 1;
/// Not connected.
pub const ENOTCONN: isize = -107;

/// The little-endian bytes of a 32-bit word.
pub open spec fn u32_le(v: u32) -> Seq<u8> {
    seq![(v & 0xff) as u8, ((v >> 8u32) & 0xff) as u8, ((v >> 16u32) & 0xff) as u8, ((v >> 24u32) & 0xff) as u8]
}

/// The bytes of a 32-bit word as it is stored in user memory.
pub fn u32_le_bytes(v: u32) -> (b: Vec<u8>)
    ensures
        b@ == u32_le(v),
{
    let b: Vec<u8> = vec![(v & 0xff) as u8, ((v >> 8u32) & 0xff) as u8, ((v >> 16u32) & 0xff) as u8, ((v >> 24u32) & 0xff) as u8];
    assert(b@ =~= u32_le(v));
    b
}

/// The result of `socket(2)`: the descriptor the socket layer allocated, or
/// its error number negated.
pub fn sys_socket(alloc: Result<usize, usize>) -> (r: isize)
    requires
        alloc matches Ok(fd) ==> fd <= isize::MAX,
        alloc matches Err(e) ==> e <= isize::MAX,
    ensures
        alloc matches Ok(fd) ==> r == fd,
        alloc matches Err(e) ==> r == -(e as int),
{
    match alloc {
        Ok(fd) => fd as isize,
        Err(e) => -(e as isize),
    }
}

/// What `bind` returns, and the entry to add to the socket table: the
/// descriptor and the socket it now shares.
#[derive(Clone, Copy, Debug, PartialEq, Eq)]
pub struct BindReply {
    pub ret: isize,
    pub table_entry: Option<(u32, usize)>,
}

/// Binds the socket of `sockfd` to the address parsed from user memory (an
/// address that does not parse binds the unspecified endpoint). `existing` is
/// the socket that the socket table has bound to that address already. A
/// stream socket binds; a datagram socket binds when no socket has the
/// address, and otherwise shares that socket: the table maps `sockfd` to it
/// and a new descriptor (close-on-exec and non-blocking off) opens it, what
/// the insertion returns being ignored. Any other kind is EINVAL; a bad
/// descriptor is EBADF.
pub fn sys_bind(ns: &mut NetState, sockfd: u32, parsed: Option<ListenEndpoint>, existing: Option<usize>) -> (r:
    BindReply)
    requires
        old(ns).wf(),
        existing matches Some(e) ==> e < old(ns).sockets@.len(),
    ensures
        final(ns).wf(),
        final(ns).pipes@ == old(ns).pipes@,
        final(ns).sockets@ == old(ns).sockets@,
        final(ns).fd_limit == old(ns).fd_limit,
        match old(ns).socket_of(sockfd as int) {
            None => r == (BindReply { ret: crate::errno::EBADF, table_entry: None }) && final(ns).fds@ == old(
                ns,
            ).fds@,
            Some(s) => {
                let kind = old(ns).sockets@[s].socket_type.bits;
                if kind == SOCK_DGRAM && existing is Some {
                    let d = FileDescriptor { cloexec: false, nonblock: false, socket: existing->0 };
                    &&& r == (BindReply { ret: SUCCESS, table_entry: Some((sockfd, existing->0)) })
                    &&& final(ns).fds@ == match next_fd(old(ns).fds@, old(ns).fd_limit as nat) {
                        Some(fd) => placed(old(ns).fds@, fd, d),
                        None => old(ns).fds@,
                    }
                } else {
                    &&& final(ns).fds@ == old(ns).fds@
                    &&& r == (BindReply {
                        ret: if kind == SOCK_STREAM || kind == SOCK_DGRAM {
                            SUCCESS
                        } else {
                            EINVAL
                        },
                        table_entry: None,
                    })
                }
            },
        },
{
    let s = match ns.get_socket(sockfd) {
        Ok(s) => s,
        Err(e) => return BindReply { ret: e, table_entry: None },
    };
    let endpoint = match parsed {
        Some(ep) => ep,
        None => ListenEndpoint { addr: None, port: 0 },
    };
    let sock = ns.sockets[s];
    let kind = sock.socket_type().bits;
    if kind == SOCK_STREAM {
        match sock.bind(endpoint) {
            Ok(v) => BindReply { ret: v as isize, table_entry: None },
            Err(e) => BindReply { ret: e, table_entry: None },
        }
    } else if kind == SOCK_DGRAM {
        match existing {
            None => match sock.bind(endpoint) {
                Ok(v) => BindReply { ret: v as isize, table_entry: None },
                Err(e) => BindReply { ret: e, table_entry: None },
            },
            Some(e) => {
                let _ = ns.insert(FileDescriptor { cloexec: false, nonblock: false, socket: e });
                BindReply { ret: SUCCESS, table_entry: Some((sockfd, e)) }
            },
        }
    } else {
        BindReply { ret: EINVAL, table_entry: None }
    }
}

/// Listening on an open socket succeeds; a bad descriptor is EBADF.
pub fn sys_listen(ns: &NetState, sockfd: u32, _backlog: u32) -> (r: isize)
    requires
        ns.wf(),
    ensures
        ns.socket_of(sockfd as int) is Some ==> r == SUCCESS,
        ns.socket_of(sockfd as int) is None ==> r == crate::errno::EBADF,
{
    match ns.get_socket(sockfd) {
        Ok(s) => match ns.sockets[s].listen() {
            Ok(v) => v as isize,
            Err(e) => e,
        },
        Err(e) => e,
    }
}

/// Accepting on a socket pair is EOPNOTSUPP; a bad descriptor is EBADF.
pub fn sys_accept(ns: &NetState, sockfd: u32, addr: usize, addrlen: usize) -> (r: isize)
    requires
        ns.wf(),
    ensures
        ns.socket_of(sockfd as int) is Some ==> r == EOPNOTSUPP,
        ns.socket_of(sockfd as int) is None ==> r == crate::errno::EBADF,
{
    match ns.get_socket(sockfd) {
        Ok(s) => match ns.sockets[s].accept(sockfd, addr, addrlen) {
            Ok(v) => v as isize,
            Err(e) => e,
        },
        Err(e) => e,
    }
}

/// Connecting a socket of a pair succeeds (the address bytes are not read);
/// a bad descriptor is EBADF.
pub fn sys_connect(ns: &NetState, sockfd: u32, addr_buf: &[u8]) -> (r: isize)
    requires
        ns.wf(),
    ensures
        ns.socket_of(sockfd as int) is Some ==> r == SUCCESS,
        ns.socket_of(sockfd as int) is None ==> r == crate::errno::EBADF,
{
    match ns.get_socket(sockfd) {
        Ok(s) => match ns.sockets[s].connect(addr_buf) {
            Ok(v) => v as isize,
            Err(e) => e,
        },
        Err(e) => e,
    }
}

/// The local address: the socket's endpoint to store, and 0; EBADF for a bad
/// descriptor.
pub fn sys_getsockname(ns: &NetState, sockfd: u32) -> (r: (isize, Option<ListenEndpoint>))
    requires
        ns.wf(),
    ensures
        ns.socket_of(sockfd as int) is Some ==> r == (SUCCESS, Some(
            (ListenEndpoint { addr: Some([0u8, 0u8, 0u8, 0u8]), port: 0 }),
        )),
        ns.socket_of(sockfd as int) is None ==> r == (crate::errno::EBADF, None::<ListenEndpoint>),
{
    match ns.get_socket(sockfd) {
        Ok(s) => (SUCCESS, Some(ns.sockets[s].loacl_endpoint())),
        Err(e) => (e, None),
    }
}

/// The peer address: a socket of a pair has no remote endpoint, so ENOTCONN;
/// EBADF for a bad descriptor.
pub fn sys_getpeername(ns: &NetState, sockfd: u32) -> (r: (isize, Option<ListenEndpoint>))
    requires
        ns.wf(),
    ensures
        ns.socket_of(sockfd as int) is Some ==> r == (ENOTCONN, None::<ListenEndpoint>),
        ns.socket_of(sockfd as int) is None ==> r == (crate::errno::EBADF, None::<ListenEndpoint>),
{
    match ns.get_socket(sockfd) {
        Ok(s) => match ns.sockets[s].remote_endpoint() {
            Some(ep) => (SUCCESS, Some(ep)),
            None => (ENOTCONN, None),
        },
        Err(e) => (e, None),
    }
}

/// The socket after `shutdown(how)`.
pub open spec fn shut(s: UnixSocket, how: u32) -> UnixSocket {
    UnixSocket {
        shut_rd: s.shut_rd || how == crate::unix::SHUT_RD || how == crate::unix::SHUT_RDWR,
        shut_wr: s.shut_wr || how == crate::unix::SHUT_WR || how == crate::unix::SHUT_RDWR,
        ..s
    }
}

/// Shuts a socket down in the direction `how` and returns 0; a bad
/// descriptor is EBADF.
pub fn sys_sock_shutdown(ns: &mut NetState, sockfd: u32, how: u32) -> (r: isize)
    requires
        old(ns).wf(),
    ensures
        final(ns).wf(),
        final(ns).pipes@ == old(ns).pipes@,
        final(ns).fds@ == old(ns).fds@,
        final(ns).fd_limit == old(ns).fd_limit,
        final(ns).pipe_capacity == old(ns).pipe_capacity,
        match old(ns).socket_of(sockfd as int) {
            Some(s) => r == SUCCESS && final(ns).sockets@ == old(ns).sockets@.update(
                s,
                shut(old(ns).sockets@[s], how),
            ),
            None => r == crate::errno::EBADF && final(ns).sockets@ == old(ns).sockets@,
        },
{
    match ns.get_socket(sockfd) {
        Ok(s) => {
            let mut sock = ns.sockets[s];
            let _ = sock.shutdown(how);
            ns.sockets.set(s, sock);
            SUCCESS
        },
        Err(e) => e,
    }
}

/// What `getsockopt` stores: the bytes at the value address and the length.
pub struct SockOptReply {
    pub ret: isize,
    pub optval: Option<Vec<u8>>,
    pub optlen: Option<u32>,
}

/// The reply succeeds and stores `bytes` with length 4.
pub open spec fn stores(r: SockOptReply, bytes: Seq<u8>) -> bool {
    &&& r.ret == SUCCESS
    &&& (r.optval matches Some(v) && v@ == bytes)
    &&& r.optlen == Some(4u32)
}

/// Answers `getsockopt`. TCP_MAXSEG gives `tcp_mss`; TCP_CONGESTION gives
/// "reno" (length 4); SO_SNDBUF and SO_RCVBUF give the socket's buffer size
/// (EBADF for a bad descriptor); SO_REUSEADDR and SO_KEEPALIVE give 1. Words
/// are stored with length 4. Other options store nothing. The result is 0
/// unless the descriptor was bad.
pub fn sys_getsockopt(ns: &NetState, sockfd: u32, level: u32, optname: u32, tcp_mss: u32) -> (r:
    SockOptReply)
    requires
        ns.wf(),
    ensures
        level == SOL_TCP && optname == TCP_MAXSEG ==> stores(r, u32_le(tcp_mss)),
        level == SOL_TCP && optname == TCP_CONGESTION ==> stores(r, seq![114u8, 101u8, 110u8, 111u8]),
        level == SOL_SOCKET && (optname == SO_SNDBUF || optname == SO_RCVBUF) ==> match ns.socket_of(
            sockfd as int,
        ) {
            Some(s) => stores(
                r,
                u32_le(
                    (if optname == SO_SNDBUF {
                        ns.sockets@[s].send_buf_size
                    } else {
                        ns.sockets@[s].recv_buf_size
                    }) as u32,
                ),
            ),
            None => r.ret == crate::errno::EBADF && r.optval is None && r.optlen is None,
        },
        level == SOL_SOCKET && (optname == SO_REUSEADDR || optname == SO_KEEPALIVE) ==> stores(
            r,
            u32_le(1),
        ),
        !((level == SOL_TCP && (optname == TCP_MAXSEG || optname == TCP_CONGESTION)) || (level
            == SOL_SOCKET && (optname == SO_SNDBUF || optname == SO_RCVBUF || optname
            == SO_REUSEADDR || optname == SO_KEEPALIVE))) ==> r.ret == SUCCESS && r.optval is None
            && r.optlen is None,
{
    if level == SOL_TCP && optname == TCP_MAXSEG {
        SockOptReply { ret: SUCCESS, optval: Some(u32_le_bytes(tcp_mss)), optlen: Some(4) }
    } else if level == SOL_TCP && optname == TCP_CONGESTION {
        let v: Vec<u8> = vec![114u8, 101u8, 110u8, 111u8];
        SockOptReply { ret: SUCCESS, optval: Some(v), optlen: Some(4) }
    } else if level == SOL_SOCKET && (optname == SO_SNDBUF || optname == SO_RCVBUF) {
        match ns.get_socket(sockfd) {
            Ok(s) => {
                let sock = ns.sockets[s];
                let size = if optname == SO_SNDBUF {
                    sock.send_buf_size()
                } else {
                    sock.recv_buf_size()
                };
                SockOptReply { ret: SUCCESS, optval: Some(u32_le_bytes(size as u32)), optlen: Some(4) }
            },
            Err(e) => SockOptReply { ret: e, optval: None, optlen: None },
        }
    } else if level == SOL_SOCKET && (optname == SO_REUSEADDR || optname == SO_KEEPALIVE) {
        SockOptReply { ret: SUCCESS, optval: Some(u32_le_bytes(1)), optlen: Some(4) }
    } else {
        SockOptReply { ret: SUCCESS, optval: None, optlen: None }
    }
}

/// Applies `setsockopt` with the 32-bit value `optval` read from user space:
/// SO_SNDBUF and SO_RCVBUF set the socket's buffer size; TCP_NODELAY and
/// SO_KEEPALIVE are passed to the socket, which does not support them, and
/// the refusal is ignored; other options change nothing. Returns 0, or EBADF
/// for a bad descriptor.
pub fn sys_setsockopt(ns: &mut NetState, sockfd: u32, level: u32, optname: u32, optval: u32) -> (r:
    isize)
    requires
        old(ns).wf(),
    ensures
        final(ns).wf(),
        final(ns).pipes@ == old(ns).pipes@,
        final(ns).fds@ == old(ns).fds@,
        final(ns).fd_limit == old(ns).fd_limit,
        final(ns).pipe_capacity == old(ns).pipe_capacity,
        match old(ns).socket_of(sockfd as int) {
            None => r == crate::errno::EBADF && final(ns).sockets@ == old(ns).sockets@,
            Some(s) => r == SUCCESS && final(ns).sockets@ == if level == SOL_SOCKET && optname
                == SO_SNDBUF {
                old(ns).sockets@.update(
                    s,
                    UnixSocket { send_buf_size: optval as usize, ..old(ns).sockets@[s] },
                )
            } else if level == SOL_SOCKET && optname == SO_RCVBUF {
                old(ns).sockets@.update(
                    s,
                    UnixSocket { recv_buf_size: optval as usize, ..old(ns).sockets@[s] },
                )
            } else {
                old(ns).sockets@
            },
        },
{
    let s = match ns.get_socket(sockfd) {
        Ok(s) => s,
        Err(e) => return e,
    };
    let mut sock = ns.sockets[s];
    if level == SOL_SOCKET && optname == SO_SNDBUF {
        sock.set_send_buf_size(optval as usize);
        ns.sockets.set(s, sock);
    } else if level == SOL_SOCKET && optname == SO_RCVBUF {
        sock.set_recv_buf_size(optval as usize);
        ns.sockets.set(s, sock);
    } else if level == SOL_TCP && optname == TCP_NODELAY {
        let _ = sock.set_nagle_enabled(optval == 0);
    } else if level == SOL_SOCKET && optname == SO_KEEPALIVE {
        let _ = sock.set_keep_alive(optval == 1);
    }
    SUCCESS
}

/// The kind a socket pair gets from the requested type: stream when the
/// stream bit is set, else datagram when the datagram bit is set.
pub open spec fn pair_kind(bits: u32) -> Option<u32> {
    if bits & SOCK_STREAM == SOCK_STREAM {
        Some(SOCK_STREAM)
    } else if bits & SOCK_DGRAM == SOCK_DGRAM {
        Some(SOCK_DGRAM)
    } else {
        None
    }
}

/// What `socketpair` returns and the two descriptors to store.
#[derive(Clone, Copy, Debug, PartialEq, Eq)]
pub struct SocketpairReply {
    pub ret: isize,
    pub sv: Option<(u32, u32)>,
}

/// Creates a connected pair of Unix sockets and two descriptors for them,
/// with close-on-exec and non-blocking taken from the type flags. A domain
/// other than AF_UNIX is EAFNOSUPPORT; unknown type bits, or neither stream
/// nor datagram, is EINVAL. The table must have room for two descriptors.
pub fn sys_socketpair(ns: &mut NetState, domain: u32, socket_type: u32, _protocol: u32) -> (r:
    SocketpairReply)
    requires
        old(ns).wf(),
        (domain as u16) == AF_UNIX && socket_type & !SOCKET_TYPE_BITS == 0 && pair_kind(socket_type) is Some
            ==> free_slots(old(ns).fds@, old(ns).fd_limit as nat) >= 2,
    ensures
        final(ns).wf(),
        (domain as u16) != AF_UNIX ==> r == (SocketpairReply { ret: EAFNOSUPPORT, sv: None })
            && final(ns).fds@ == old(ns).fds@ && final(ns).sockets@ == old(ns).sockets@,
        (domain as u16) == AF_UNIX && (socket_type & !SOCKET_TYPE_BITS != 0 || pair_kind(socket_type) is None)
            ==> r == (SocketpairReply { ret: EINVAL, sv: None }) && final(ns).fds@ == old(ns).fds@
            && final(ns).sockets@ == old(ns).sockets@,
        (domain as u16) == AF_UNIX && socket_type & !SOCKET_TYPE_BITS == 0 && pair_kind(socket_type) is Some
            ==> ({
            let kind = SocketType { bits: pair_kind(socket_type)->0 };
            let s1 = old(ns).sockets@.len() as usize;
            let s2 = (old(ns).sockets@.len() + 1) as usize;
            let p1 = old(ns).pipes@.len() as usize;
            let p2 = (old(ns).pipes@.len() + 1) as usize;
            let cloexec = socket_type & SOCK_CLOEXEC == SOCK_CLOEXEC;
            let nonblock = socket_type & SOCK_NONBLOCK == SOCK_NONBLOCK;
            let f1 = next_fd(old(ns).fds@, old(ns).fd_limit as nat)->0;
            let fds1 = placed(old(ns).fds@, f1, FileDescriptor { cloexec, nonblock, socket: s1 });
            let f2 = next_fd(fds1, old(ns).fd_limit as nat)->0;
            &&& r == (SocketpairReply { ret: SUCCESS, sv: Some((f1 as u32, f2 as u32)) })
            &&& final(ns).sockets@ == old(ns).sockets@.push(UnixSocket::spec_new(p1, p2, kind)).push(
                UnixSocket::spec_new(p2, p1, kind),
            )
            &&& final(ns).fds@ == placed(fds1, f2, FileDescriptor { cloexec, nonblock, socket: s2 })
            &&& final(ns).pipes@.len() == old(ns).pipes@.len() + 2
        }),
{
    if (domain as u16) != AF_UNIX {
        return SocketpairReply { ret: EAFNOSUPPORT, sv: None };
    }
    let st = match SocketType::from_bits(socket_type) {
        Some(t) => t,
        None => return SocketpairReply { ret: EINVAL, sv: None },
    };
    let cloexec = st.contains(SOCK_CLOEXEC);
    let nonblock = st.contains(SOCK_NONBLOCK);
    let kind = if st.contains(SOCK_STREAM) {
        SOCK_STREAM
    } else if st.contains(SOCK_DGRAM) {
        SOCK_DGRAM
    } else {
        return SocketpairReply { ret: EINVAL, sv: None };
    };
    let (s1, s2) = make_unix_socket_pair(ns, SocketType { bits: kind });
    proof {
        lemma_next_fd_bounds(ns.fds@, ns.fd_limit as nat);
    }
    let r1 = ns.insert(FileDescriptor { cloexec, nonblock, socket: s1 });
    let fd1 = match r1 {
        Ok(fd) => fd,
        Err(_) => {
            assert(false);
            return SocketpairReply { ret: EINVAL, sv: None };
        },
    };
    proof {
        lemma_next_fd_bounds(ns.fds@, ns.fd_limit as nat);
    }
    let r2 = ns.insert(FileDescriptor { cloexec, nonblock, socket: s2 });
    let fd2 = match r2 {
        Ok(fd) => fd,
        Err(_) => {
            assert(false);
            return SocketpairReply { ret: EINVAL, sv: None };
        },
    };
    SocketpairReply { ret: SUCCESS, sv: Some((fd1 as u32, fd2 as u32)) }
}


/// What one socket of a connected pair writes, the other reads: after a
/// write that fits in an empty pipe, a read of at least that many bytes on
/// the other end returns exactly the bytes written.
pub proof fn law_pair_delivers(before: &NetState, after: &NetState, a: int, b: int, buf: Seq<u8>, max: nat)
    requires
        before.wf(),
        0 <= a < before.sockets@.len(),
        0 <= b < before.sockets@.len(),
        before.sockets@[a].write_end == before.sockets@[b].read_end,
        !before.sockets@[a].shut_wr,
        !before.sockets@[b].shut_rd,
        before.pipes@[before.sockets@[a].write_end as int].data@.len() == 0,
        buf.len() <= before.pipes@[before.sockets@[a].write_end as int].capacity,
        buf.len() <= max,
        write_effect(before, after, a, buf),
        after.sockets@ == before.sockets@,
    ensures
        write_count(before, a, buf) == buf.len(),
        read_data(after, b, max) == buf,
{
    let p = before.sockets@[a].write_end as int;
    assert(before.sockets@[a].write_end < before.pipes@.len());
    assert(buf.subrange(0, buf.len() as int) =~= buf);
    assert(after.pipes@[p].data@ =~= buf);
}

/// The bytes in the pipe from socket `a` to socket `b` in state `ns`.
pub open spec fn pair_pipe(ns: NetState, a: int) -> Seq<u8> {
    ns.pipes@[ns.sockets@[a].write_end as int].data@
}

/// One step of a run on a pair: `(true, buf, _)` is a write of `buf` by `a`,
/// `(false, _, max)` a read of up to `max` bytes by `b`. The step from
/// `states[k]` to `states[k + 1]` is the one `write` or `read` makes.
pub open spec fn pair_step_ok(states: Seq<NetState>, steps: Seq<(bool, Seq<u8>, nat)>, a: int, b: int, k: int) -> bool {
    let ns = states[k];
    &&& ns.wf()
    &&& 0 <= a < ns.sockets@.len()
    &&& 0 <= b < ns.sockets@.len()
    &&& ns.sockets@[a].write_end == ns.sockets@[b].read_end
    &&& !ns.sockets@[a].shut_wr
    &&& !ns.sockets@[b].shut_rd
    &&& states[k + 1].sockets@ == ns.sockets@
    &&& if steps[k].0 {
        write_effect(&ns, &states[k + 1], a, steps[k].1)
    } else {
        read_effect(&ns, &states[k + 1], b, steps[k].2)
    }
}

/// The bytes `a`'s writes among the first `k` steps put into the pipe.
pub open spec fn pair_written(states: Seq<NetState>, steps: Seq<(bool, Seq<u8>, nat)>, a: int, k: int) -> Seq<u8>
    decreases k,
{
    if k <= 0 {
        Seq::empty()
    } else if steps[k - 1].0 {
        pair_written(states, steps, a, k - 1) + steps[k - 1].1.subrange(
            0,
            write_count(&states[k - 1], a, steps[k - 1].1) as int,
        )
    } else {
        pair_written(states, steps, a, k - 1)
    }
}

/// The bytes `b`'s reads among the first `k` steps returned.
pub open spec fn pair_read(states: Seq<NetState>, steps: Seq<(bool, Seq<u8>, nat)>, b: int, k: int) -> Seq<u8>
    decreases k,
{
    if k <= 0 {
        Seq::empty()
    } else if steps[k - 1].0 {
        pair_read(states, steps, b, k - 1)
    } else {
        pair_read(states, steps, b, k - 1) + read_data(&states[k - 1], b, steps[k - 1].2)
    }
}

/// A connected pair is a byte stream from `a` to `b`: over any run of writes
/// by `a` and reads by `b`, what `b` has read followed by what is still in
/// the pipe is what was in it at the start followed by every byte `a`'s
/// writes were accepted with, in order.
pub proof fn law_pair_stream(states: Seq<NetState>, steps: Seq<(bool, Seq<u8>, nat)>, a: int, b: int, n: int)
    requires
        0 <= n <= steps.len(),
        states.len() == steps.len() + 1,
        forall|k: int| 0 <= k < n ==> pair_step_ok(states, steps, a, b, k),
    ensures
        pair_read(states, steps, b, n) + pair_pipe(states[n], a) == pair_pipe(states[0], a)
            + pair_written(states, steps, a, n),
    decreases n,
{
    if n > 0 {
        law_pair_stream(states, steps, a, b, n - 1);
        let k = n - 1;
        let ns = states[k];
        assert(pair_step_ok(states, steps, a, b, k));
        let p = ns.sockets@[a].write_end as int;
        assert(ns.sockets@[a].write_end < ns.pipes@.len());
        let r0 = pair_read(states, steps, b, k);
        let w0 = pair_written(states, steps, a, k);
        let d = pair_pipe(ns, a);
        assert(pair_pipe(states[n], a) == states[n].pipes@[p].data@);
        if steps[k].0 {
            let acc = steps[k].1.subrange(0, write_count(&ns, a, steps[k].1) as int);
            assert(states[n].pipes@[p].data@ == d + acc);
            assert(r0 + (d + acc) =~= (r0 + d) + acc);
            assert(pair_pipe(states[0], a) + (w0 + acc) =~= (pair_pipe(states[0], a) + w0) + acc);
        } else {
            let got = read_data(&ns, b, steps[k].2);
            assert(ns.sockets@[b].read_end as int == p);
            assert(got =~= d.subrange(0, got.len() as int));
            assert(states[n].pipes@[p].data@ == d.subrange(got.len() as int, d.len() as int));
            assert((r0 + got) + d.subrange(got.len() as int, d.len() as int) =~= r0 + d);
        }
    }
}

/// After `shutdown(how)` a socket stops moving data in that direction: with
/// its read side shut reads return nothing; with its write side shut writes
/// return EPIPE (as a count).
pub proof fn law_shutdown_stops_io(ns: &NetState, s: int, sock: UnixSocket, how: u32, buf: Seq<u8>, max: nat)
    requires
        0 <= s < ns.sockets@.len(),
        ns.sockets@[s] == shut(sock, how),
    ensures
        (how == SHUT_RD || how == crate::unix::SHUT_RDWR) ==> read_data(ns, s, max) == Seq::<u8>::empty(),
        (how == SHUT_WR || how == crate::unix::SHUT_RDWR) ==> write_count(ns, s, buf) == epipe_count(),
{
}

/// A buffer size set with `setsockopt` is the one `getsockopt` reports.
pub proof fn law_sockopt_roundtrip(sock: UnixSocket, v: u32)
    ensures
        u32_le((UnixSocket { send_buf_size: v as usize, ..sock }).send_buf_size as u32) == u32_le(v),
        u32_le((UnixSocket { recv_buf_size: v as usize, ..sock }).recv_buf_size as u32) == u32_le(v),
{
}

} // verus!
