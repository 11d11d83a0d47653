//! Raw ICMP sockets over `smoltcp`'s ICMP socket: binding to an echo
//! identifier, and packets sent to the loopback address and received from
//! the interface.
use vstd::prelude::*;
use smoltcp::socket::icmp;
use crate::errno::{EINVAL, ENOTDIR, ENOTTY, EOPNOTSUPP, ESPIPE};
use crate::stat::{DevNum, DiskInodeType, Stat, S_IFSOCK};
use crate::unix::{ListenEndpoint, SocketType, SOCK_RAW};

verus! {

/// `smoltcp`'s ICMP socket, seen here only through the names below.
#[verifier::external_type_specification]
#[verifier::external_body]
pub struct ExIcmpSocket<'a>(icmp::Socket<'a>);

/// The packets `s` has received and not yet handed out, oldest first: the
/// source address when it is an IPv4 one, and the payload.
pub uninterp spec fn icmp_rx(s: icmp::Socket<'static>) -> Seq<(Option<[u8; 4]>, Seq<u8>)>;

/// The packets `s` holds to send, oldest first: the destination address when
/// it is an IPv4 one, and the payload.
pub uninterp spec fn icmp_tx(s: icmp::Socket<'static>) -> Seq<(Option<[u8; 4]>, Seq<u8>)>;

/// What `is_open` answers for `s`: it is bound to an endpoint.
pub uninterp spec fn icmp_is_open(s: icmp::Socket<'static>) -> bool;

/// The echo identifier `s` is bound to, if it is bound to one.
pub uninterp spec fn icmp_endpoint(s: icmp::Socket<'static>) -> Option<u16>;

/// How many packets the send queue of `s` was made to hold.
pub uninterp spec fn icmp_packet_capacity(s: icmp::Socket<'static>) -> nat;

/// What `can_recv` answers for `s`: its receive queue is not empty, which it
/// is not while it holds a packet.
pub uninterp spec fn icmp_can_recv(s: icmp::Socket<'static>) -> bool;

/// What `can_send` answers for `s`: the queue of packets to send has a free
/// entry.
pub uninterp spec fn icmp_can_send(s: icmp::Socket<'static>) -> bool;

/// Whether `send_slice` of `len` bytes to a specified address succeeds on
/// `s`: the send queue has a free entry and its payload ring has room for
/// `len` contiguous bytes, after padding to the ring's start if need be.
pub uninterp spec fn icmp_send_fits(s: icmp::Socket<'static>, len: nat) -> bool;

/// `data` after `p`, no longer than it, is copied to its start.
pub open spec fn copied_to_start(data: Seq<u8>, p: Seq<u8>) -> Seq<u8> {
    p + data.skip(p.len() as int)
}

/// `icmp::Socket::new` with receive and send buffers of `packets` entries and
/// `bytes` bytes each: both queues are empty, the socket is not bound, the
/// send queue holds `packets` entries, and a packet can be queued exactly
/// when there is at least one entry.
#[verifier::external_body]
fn icmp_socket_new(packets: usize, bytes: usize) -> (s: icmp::Socket<'static>)
    ensures
        icmp_rx(s) == Seq::<(Option<[u8; 4]>, Seq<u8>)>::empty(),
        icmp_tx(s) == Seq::<(Option<[u8; 4]>, Seq<u8>)>::empty(),
        !icmp_is_open(s),
        icmp_endpoint(s) is None,
        icmp_packet_capacity(s) == packets,
        icmp_can_send(s) == (packets > 0),
        packets > 0 ==> forall|n: nat| n <= bytes ==> #[trigger] icmp_send_fits(s, n),
{
    let rx = icmp::PacketBuffer::new(vec![icmp::PacketMetadata::EMPTY; packets], vec![0u8; bytes]);
    let tx = icmp::PacketBuffer::new(vec![icmp::PacketMetadata::EMPTY; packets], vec![0u8; bytes]);
    icmp::Socket::new(rx, tx)
}

/// `icmp::Socket::can_send`.
#[verifier::external_body]
fn icmp_socket_can_send(s: &icmp::Socket<'static>) -> (b: bool)
    ensures
        b == icmp_can_send(*s),
{
    s.can_send()
}

/// `icmp::Socket::can_recv`: true while a received packet waits.
#[verifier::external_body]
fn icmp_socket_can_recv(s: &icmp::Socket<'static>) -> (b: bool)
    ensures
        b == icmp_can_recv(*s),
        icmp_rx(*s).len() > 0 ==> b,
{
    s.can_recv()
}

/// Why receiving failed.
#[derive(Clone, Copy, Debug, PartialEq, Eq)]
pub enum IcmpRecvError {
    Exhausted,
    Truncated,
}

/// Why sending failed.
#[derive(Clone, Copy, Debug, PartialEq, Eq)]
pub enum IcmpSendError {
    Unaddressable,
    BufferFull,
}

/// Why binding failed.
#[derive(Clone, Copy, Debug, PartialEq, Eq)]
pub enum IcmpBindError {
    InvalidState,
    Unaddressable,
}

/// `icmp::Socket::recv_slice`: fails with `Exhausted` when no packet waits;
/// otherwise takes the oldest packet off the queue and copies its payload to
/// the start of `data`, returning its length, or, when `data` is shorter,
/// drops it and fails with `Truncated`. The source address it also returns
/// is not passed on.
#[verifier::external_body]
fn icmp_socket_recv_slice(s: &mut icmp::Socket<'static>, data: &mut [u8]) -> (r: Result<usize, IcmpRecvError>)
    ensures
        final(data)@.len() == old(data)@.len(),
        icmp_tx(*final(s)) == icmp_tx(*old(s)),
        icmp_is_open(*final(s)) == icmp_is_open(*old(s)),
        icmp_endpoint(*final(s)) == icmp_endpoint(*old(s)),
        icmp_packet_capacity(*final(s)) == icmp_packet_capacity(*old(s)),
        icmp_can_send(*final(s)) == icmp_can_send(*old(s)),
        icmp_rx(*old(s)).len() == 0 ==> (r matches Err(IcmpRecvError::Exhausted))
            && icmp_rx(*final(s)) == icmp_rx(*old(s)) && final(data)@ == old(data)@,
        icmp_rx(*old(s)).len() > 0 ==> ({
            let p = icmp_rx(*old(s))[0].1;
            &&& icmp_rx(*final(s)) == icmp_rx(*old(s)).drop_first()
            &&& old(data)@.len() < p.len() ==> (r matches Err(IcmpRecvError::Truncated))
                && final(data)@ == old(data)@
            &&& p.len() <= old(data)@.len() ==> (r matches Ok(n) && n == p.len()) && final(data)@ == copied_to_start(
                old(data)@,
                p,
            )
        }),
{
    match s.recv_slice(data) {
        Ok((n, _)) => Ok(n),
        Err(icmp::RecvError::Exhausted) => Err(IcmpRecvError::Exhausted),
        Err(icmp::RecvError::Truncated) => Err(IcmpRecvError::Truncated),
    }
}

/// `icmp::Socket::send_slice` to the IPv4 address `addr`: an address in
/// 0.0.0.0/8 is `Unaddressable` and a queue without a free entry is
/// `BufferFull`, both leaving the socket as it was; when it succeeds the
/// packet joins the queue, and when it fails the queued packets stay. To a
/// specified address it succeeds exactly when the payload fits
/// (`icmp_send_fits`).
#[verifier::external_body]
fn icmp_socket_send_slice(s: &mut icmp::Socket<'static>, data: &[u8], addr: [u8; 4]) -> (r: Result<
    (),
    IcmpSendError,
>)
    ensures
        icmp_rx(*final(s)) == icmp_rx(*old(s)),
        icmp_is_open(*final(s)) == icmp_is_open(*old(s)),
        icmp_endpoint(*final(s)) == icmp_endpoint(*old(s)),
        icmp_packet_capacity(*final(s)) == icmp_packet_capacity(*old(s)),
        addr[0] == 0 ==> (r matches Err(IcmpSendError::Unaddressable)) && *final(s) == *old(s),
        addr[0] != 0 && !icmp_can_send(*old(s)) ==> (r matches Err(IcmpSendError::BufferFull))
            && *final(s) == *old(s),
        addr[0] != 0 ==> (r is Ok <==> icmp_send_fits(*old(s), data@.len())),
        r is Ok ==> icmp_tx(*final(s)) == icmp_tx(*old(s)).push((Some(addr), data@)),
        r is Err ==> icmp_tx(*final(s)) == icmp_tx(*old(s)),
{
    let endpoint = smoltcp::wire::IpAddress::v4(addr[0], addr[1], addr[2], addr[3]);
    match s.send_slice(data, endpoint) {
        Ok(()) => Ok(()),
        Err(icmp::SendError::Unaddressable) => Err(IcmpSendError::Unaddressable),
        Err(icmp::SendError::BufferFull) => Err(IcmpSendError::BufferFull),
    }
}

/// `icmp::Socket::bind` to the echo identifier `ident`, or to the unspecified
/// endpoint for `None`: the unspecified endpoint is `Unaddressable` and a
/// socket bound already is `InvalidState`, both leaving the socket as it
/// was; otherwise the socket is bound to `ident` and its queues stay.
#[verifier::external_body]
fn icmp_socket_bind(s: &mut icmp::Socket<'static>, ident: Option<u16>) -> (r: Result<(), IcmpBindError>)
    ensures
        ident is None ==> (r matches Err(IcmpBindError::Unaddressable)) && *final(s) == *old(s),
        ident is Some && icmp_is_open(*old(s)) ==> (r matches Err(IcmpBindError::InvalidState))
            && *final(s) == *old(s),
        ident is Some && !icmp_is_open(*old(s)) ==> r is Ok && icmp_is_open(*final(s)) && icmp_endpoint(
            *final(s),
        ) == ident && icmp_rx(*final(s)) == icmp_rx(*old(s)) && icmp_tx(*final(s)) == icmp_tx(*old(s))
            && icmp_can_send(*final(s)) == icmp_can_send(*old(s)) && icmp_can_recv(*final(s))
            == icmp_can_recv(*old(s)) && icmp_packet_capacity(*final(s)) == icmp_packet_capacity(*old(s)),
{
    let endpoint = match ident {
        Some(i) => icmp::Endpoint::Ident(i),
        None => icmp::Endpoint::Unspecified,
    };
    match s.bind(endpoint) {
        Ok(()) => Ok(()),
        Err(icmp::BindError::InvalidState) => Err(IcmpBindError::InvalidState),
        Err(icmp::BindError::Unaddressable) => Err(IcmpBindError::Unaddressable),
    }
}

/// Packets each queue of a raw ICMP socket holds.
pub const ICMP_QUEUE_PACKETS: usize = 8;
/// Payload bytes each queue of a raw ICMP socket holds.
pub const ICMP_QUEUE_BYTES: usize = 65536;
/// Where a raw socket sends its packets: the loopback address.
pub const ICMP_PEER: [u8; 4] = [127u8, 0u8, 0u8, 1u8];

/// A raw ICMP socket.
pub struct IcmpSocket {
    pub socket: icmp::Socket<'static>,
}

impl IcmpSocket {
    /// An unbound socket with empty queues of `ICMP_QUEUE_PACKETS` packets.
    pub fn new() -> (r: Self)
        ensures
            icmp_rx(r.socket) == Seq::<(Option<[u8; 4]>, Seq<u8>)>::empty(),
            icmp_tx(r.socket) == Seq::<(Option<[u8; 4]>, Seq<u8>)>::empty(),
            !icmp_is_open(r.socket),
            icmp_endpoint(r.socket) is None,
            icmp_packet_capacity(r.socket) == ICMP_QUEUE_PACKETS,
            icmp_can_send(r.socket),
            forall|n: nat| n <= ICMP_QUEUE_BYTES ==> #[trigger] icmp_send_fits(r.socket, n),
    {
        Self { socket: icmp_socket_new(ICMP_QUEUE_PACKETS, ICMP_QUEUE_BYTES) }
    }

    /// Binds to echo identifier 0 for an IPv4 address; with no address there
    /// is nothing to bind to, and that, like binding twice, is EINVAL.
    pub fn bind(&mut self, addr: ListenEndpoint) -> (r: Result<usize, isize>)
        ensures
            addr.addr is Some && !icmp_is_open(old(self).socket) ==> r == Ok::<usize, isize>(0)
                && icmp_is_open(final(self).socket) && icmp_endpoint(final(self).socket) == Some(0u16)
                && icmp_packet_capacity(final(self).socket) == icmp_packet_capacity(old(self).socket)
                && icmp_rx(final(self).socket) == icmp_rx(
                old(self).socket,
            ) && icmp_tx(final(self).socket) == icmp_tx(old(self).socket) && icmp_can_send(
                final(self).socket,
            ) == icmp_can_send(old(self).socket),
            !(addr.addr is Some && !icmp_is_open(old(self).socket)) ==> r == Err::<usize, isize>(EINVAL)
                && final(self).socket == old(self).socket,
    {
        let ident = match addr.addr {
            Some(_) => Some(0u16),
            None => None,
        };
        match icmp_socket_bind(&mut self.socket, ident) {
            Ok(()) => Ok(0),
            Err(_) => Err(EINVAL),
        }
    }

    pub fn listen(&self) -> (r: Result<usize, isize>)
        ensures
            r == Ok::<usize, isize>(0),
    {
        Ok(0)
    }

    pub fn connect(&self, _addr_buf: &[u8]) -> (r: Result<usize, isize>)
        ensures
            r == Ok::<usize, isize>(0),
    {
        Ok(0)
    }

    pub fn accept(&self, _sockfd: u32, _addr: usize, _addrlen: usize) -> (r: Result<usize, isize>)
        ensures
            r == Err::<usize, isize>(EOPNOTSUPP),
    {
        Err(EOPNOTSUPP)
    }

    pub fn socket_type(&self) -> (t: SocketType)
        ensures
            t == (SocketType { bits: SOCK_RAW }),
    {
        SocketType { bits: SOCK_RAW }
    }

    /// Buffer sizes are fixed at 64 KiB and cannot be set.
    pub fn recv_buf_size(&self) -> (n: usize)
        ensures
            n == ICMP_QUEUE_BYTES,
    {
        ICMP_QUEUE_BYTES
    }

    pub fn send_buf_size(&self) -> (n: usize)
        ensures
            n == ICMP_QUEUE_BYTES,
    {
        ICMP_QUEUE_BYTES
    }

    pub fn set_recv_buf_size(&self, _size: usize) {
    }

    pub fn set_send_buf_size(&self, _size: usize) {
    }

    /// No local address or port.
    pub fn loacl_endpoint(&self) -> (e: ListenEndpoint)
        ensures
            e == (ListenEndpoint { addr: None, port: 0 }),
    {
        ListenEndpoint { addr: None, port: 0 }
    }

    pub fn remote_endpoint(&self) -> (e: Option<ListenEndpoint>)
        ensures
            e is None,
    {
        None
    }

    pub fn shutdown(&self, _how: u32) -> (r: Result<(), isize>)
        ensures
            r is Ok,
    {
        Ok(())
    }

    pub fn set_nagle_enabled(&self, _enabled: bool) -> (r: Result<usize, isize>)
        ensures
            r == Ok::<usize, isize>(0),
    {
        Ok(0)
    }

    pub fn set_keep_alive(&self, _enabled: bool) -> (r: Result<usize, isize>)
        ensures
            r == Ok::<usize, isize>(0),
    {
        Ok(0)
    }

    /// A copy is a new, unbound socket.
    pub fn deep_clone(&self) -> (r: Self)
        ensures
            icmp_rx(r.socket) == Seq::<(Option<[u8; 4]>, Seq<u8>)>::empty(),
            icmp_tx(r.socket) == Seq::<(Option<[u8; 4]>, Seq<u8>)>::empty(),
            !icmp_is_open(r.socket),
            icmp_endpoint(r.socket) is None,
            icmp_packet_capacity(r.socket) == ICMP_QUEUE_PACKETS,
            icmp_can_send(r.socket),
            forall|n: nat| n <= ICMP_QUEUE_BYTES ==> #[trigger] icmp_send_fits(r.socket, n),
    {
        Self::new()
    }

    pub fn readable(&self) -> (b: bool)
        ensures
            b,
    {
        true
    }

    pub fn writable(&self) -> (b: bool)
        ensures
            b,
    {
        true
    }

    /// Receives the oldest waiting packet into `buf` and returns its length;
    /// 0 when none waits, and 0 when it does not fit, the packet being lost.
    pub fn read(&mut self, buf: &mut [u8]) -> (n: usize)
        ensures
            final(buf)@.len() == old(buf)@.len(),
            icmp_tx(final(self).socket) == icmp_tx(old(self).socket),
            icmp_is_open(final(self).socket) == icmp_is_open(old(self).socket),
            icmp_endpoint(final(self).socket) == icmp_endpoint(old(self).socket),
            icmp_packet_capacity(final(self).socket) == icmp_packet_capacity(old(self).socket),
            icmp_can_send(final(self).socket) == icmp_can_send(old(self).socket),
            icmp_rx(old(self).socket).len() == 0 ==> n == 0 && final(buf)@ == old(buf)@ && icmp_rx(
                final(self).socket,
            ) == icmp_rx(old(self).socket),
            icmp_rx(old(self).socket).len() > 0 ==> ({
                let p = icmp_rx(old(self).socket)[0].1;
                &&& icmp_rx(final(self).socket) == icmp_rx(old(self).socket).drop_first()
                &&& old(buf)@.len() < p.len() ==> n == 0 && final(buf)@ == old(buf)@
                &&& p.len() <= old(buf)@.len() ==> n == p.len() && final(buf)@ == copied_to_start(
                    old(buf)@,
                    p,
                )
            }),
    {
        if !icmp_socket_can_recv(&self.socket) {
            return 0;
        }
        match icmp_socket_recv_slice(&mut self.socket, buf) {
            Ok(n) => n,
            Err(_) => 0,
        }
    }

    /// Queues `buf` as one packet to the loopback address and returns its
    /// length when the queue has a free entry and the payload fits; else 0,
    /// nothing being queued.
    pub fn write(&mut self, buf: &[u8]) -> (n: usize)
        ensures
            icmp_rx(final(self).socket) == icmp_rx(old(self).socket),
            icmp_is_open(final(self).socket) == icmp_is_open(old(self).socket),
            icmp_endpoint(final(self).socket) == icmp_endpoint(old(self).socket),
            icmp_packet_capacity(final(self).socket) == icmp_packet_capacity(old(self).socket),
            !icmp_can_send(old(self).socket) ==> final(self).socket == old(self).socket,
            icmp_can_send(old(self).socket) && icmp_send_fits(old(self).socket, buf@.len())
                ==> n == buf@.len() && icmp_tx(final(self).socket) == icmp_tx(old(self).socket).push(
                (Some(ICMP_PEER), buf@),
            ),
            !(icmp_can_send(old(self).socket) && icmp_send_fits(old(self).socket, buf@.len()))
                ==> n == 0 && icmp_tx(final(self).socket) == icmp_tx(old(self).socket),
    {
        if !icmp_socket_can_send(&self.socket) {
            return 0;
        }
        match icmp_socket_send_slice(&mut self.socket, buf, ICMP_PEER) {
            Ok(()) => buf.len(),
            Err(_) => 0,
        }
    }

    /// A packet waits.
    pub fn r_ready(&self) -> (b: bool)
        ensures
            b == icmp_can_recv(self.socket),
            icmp_rx(self.socket).len() > 0 ==> b,
    {
        icmp_socket_can_recv(&self.socket)
    }

    /// A packet can be queued.
    pub fn w_ready(&self) -> (b: bool)
        ensures
            b == icmp_can_send(self.socket),
    {
        icmp_socket_can_send(&self.socket)
    }

    pub fn get_size(&self) -> (n: usize)
        ensures
            n == 0,
    {
        0
    }

    /// A socket on device 0:7, readable and writable by all.
    pub fn get_stat(&self) -> (st: Stat)
        ensures
            st == (Stat {
                st_dev: DevNum { major: 0, minor: 7 },
                st_ino: 1,
                st_mode: S_IFSOCK | 0o666,
                st_nlink: 1,
                st_rdev: DevNum { major: 0, minor: 0 },
                st_size: 0,
                st_atime_sec: 0,
                st_mtime_sec: 0,
                st_ctime_sec: 0,
            }),
    {
        Stat {
            st_dev: DevNum { major: 0, minor: 7 },
            st_ino: 1,
            st_mode: S_IFSOCK | 0o666,
            st_nlink: 1,
            st_rdev: DevNum { major: 0, minor: 0 },
            st_size: 0,
            st_atime_sec: 0,
            st_mtime_sec: 0,
            st_ctime_sec: 0,
        }
    }

    pub fn get_file_type(&self) -> (t: DiskInodeType)
        ensures
            t == DiskInodeType::File,
    {
        DiskInodeType::File
    }

    pub fn is_dir(&self) -> (b: bool)
        ensures
            !b,
    {
        false
    }

    pub fn is_file(&self) -> (b: bool)
        ensures
            b,
    {
        true
    }

    /// Opening gives a new, unbound socket.
    pub fn open(&self, _flags: u32, _special_use: bool) -> (r: Self)
        ensures
            icmp_rx(r.socket) == Seq::<(Option<[u8; 4]>, Seq<u8>)>::empty(),
            icmp_tx(r.socket) == Seq::<(Option<[u8; 4]>, Seq<u8>)>::empty(),
            !icmp_is_open(r.socket),
            icmp_endpoint(r.socket) is None,
            icmp_packet_capacity(r.socket) == ICMP_QUEUE_PACKETS,
            icmp_can_send(r.socket),
            forall|n: nat| n <= ICMP_QUEUE_BYTES ==> #[trigger] icmp_send_fits(r.socket, n),
    {
        self.deep_clone()
    }

    pub fn open_subfile(&self) -> (r: Result<(), isize>)
        ensures
            r == Err::<(), isize>(ENOTDIR),
    {
        Err(ENOTDIR)
    }

    pub fn create(&self, _name: &str, _file_type: DiskInodeType) -> (r: Result<(), isize>)
        ensures
            r == Err::<(), isize>(EINVAL),
    {
        Err(EINVAL)
    }

    pub fn link_child(&self, _name: &str) -> (r: Result<(), isize>)
        ensures
            r == Err::<(), isize>(EINVAL),
    {
        Err(EINVAL)
    }

    pub fn unlink(&self, _delete: bool) -> (r: Result<(), isize>)
        ensures
            r == Err::<(), isize>(EINVAL),
    {
        Err(EINVAL)
    }

    pub fn get_offset(&self) -> (n: usize)
        ensures
            n == 0,
    {
        0
    }

    pub fn lseek(&self, _offset: isize) -> (r: Result<usize, isize>)
        ensures
            r == Err::<usize, isize>(ESPIPE),
    {
        Err(ESPIPE)
    }

    pub fn modify_size(&self, _diff: isize) -> (r: Result<(), isize>)
        ensures
            r is Ok,
    {
        Ok(())
    }

    pub fn truncate_size(&self, _new_size: usize) -> (r: Result<(), isize>)
        ensures
            r == Err::<(), isize>(EINVAL),
    {
        Err(EINVAL)
    }

    pub fn oom(&self) -> (n: usize)
        ensures
            n == 0,
    {
        0
    }

    pub fn hang_up(&self) -> (b: bool)
        ensures
            !b,
    {
        false
    }

    pub fn ioctl(&self, _cmd: u32, _argp: usize) -> (r: isize)
        ensures
            r == ENOTTY,
    {
        ENOTTY
    }

    pub fn fcntl(&self, _cmd: u32, _arg: u32) -> (r: isize)
        ensures
            r == EINVAL,
    {
        EINVAL
    }
}

} // verus!
