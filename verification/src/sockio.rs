//! Moving data through sockets: `sendto`, `recvfrom`, and `sendmsg` /
//! `recvmsg` with their scatter-gather lists.
use vstd::prelude::*;
use crate::errno::{EINVAL, EFAULT};
use crate::unix::{NetState, SOCK_STREAM, SOCK_DGRAM, SOCK_RAW, read_data, read_effect, write_count, write_effect};
use crate::uspace::{UserSpace, list_read, range_ok, iov_total, IOVEC_SIZE};
use crate::process_vm::{min_nat, write_at};
use crate::net::{u32_le, u32_le_bytes};

verus! {

/// The message header of `sendmsg` / `recvmsg`, as read from user memory.
#[derive(Clone, Copy, Debug, PartialEq, Eq)]
pub struct MsgHdr {
    pub msg_name: usize,
    pub msg_namelen: u32,
    pub msg_iov: usize,
    pub msg_iovlen: usize,
    pub msg_control: usize,
    pub msg_controllen: usize,
    pub msg_flags: i32,
}

/// Offset of `msg_flags` in the header, and the header's size.
pub const MSG_FLAGS_OFFSET: usize = 48;
pub const MSG_HDR_SIZE: usize = 56;
/// The data did not all fit.
pub const MSG_TRUNC: i32 = 0x20;

/// The bytes of pieces `i..` appended to `acc`: empty pieces are skipped,
/// and nothing results if a non-empty piece is not mapped.
pub open spec fn gather_all_from(mem: Seq<u8>, iovs: Seq<(usize, usize)>, i: int, acc: Seq<u8>) -> Option<
    Seq<u8>,
>
    decreases iovs.len() - i,
{
    if i < 0 || i >= iovs.len() {
        Some(acc)
    } else if iovs[i].1 == 0 {
        gather_all_from(mem, iovs, i + 1, acc)
    } else if !range_ok(mem.len(), iovs[i].0 as int, iovs[i].1 as int) {
        None
    } else {
        gather_all_from(
            mem,
            iovs,
            i + 1,
            acc + mem.subrange(iovs[i].0 as int, iovs[i].0 + iovs[i].1),
        )
    }
}

/// What `gather_iov` yields for `cnt` iovecs at `ptr`: the bytes of all
/// pieces, EFAULT when the list or a non-empty piece is not mapped.
pub open spec fn gathered(mem: Seq<u8>, ptr: usize, cnt: usize) -> Result<Seq<u8>, isize> {
    match list_read(mem, ptr, cnt) {
        None => Err(EFAULT),
        Some(iovs) => match gather_all_from(mem, iovs, 0, Seq::empty()) {
            Some(b) => Ok(b),
            None => Err(EFAULT),
        },
    }
}

/// Gathers the bytes named by `cnt` iovecs at `ptr` into one buffer.
pub fn gather_iov(space: &UserSpace, ptr: usize, cnt: usize) -> (r: Result<Vec<u8>, isize>)
    requires
        IOVEC_SIZE * cnt <= usize::MAX,
    ensures
        match gathered(space.mem@, ptr, cnt) {
            Ok(b) => r matches Ok(v) && v@ == b,
            Err(e) => r == Err::<Vec<u8>, isize>(e),
        },
{
    let iovs = match space.read_iovecs(ptr, cnt) {
        Ok(v) => v,
        Err(e) => return Err(e),
    };
    let mut out: Vec<u8> = Vec::new();
    let mut i: usize = 0;
    while i < iovs.len()
        invariant
            i <= iovs.len(),
            list_read(space.mem@, ptr, cnt) == Some(iovs@),
            gather_all_from(space.mem@, iovs@, 0, Seq::empty()) == gather_all_from(
                space.mem@,
                iovs@,
                i as int,
                out@,
            ),
        decreases iovs.len() - i,
    {
        let (a, l) = iovs[i];
        if l != 0 {
            if a > space.mem.len() || l > space.mem.len() - a {
                return Err(EFAULT);
            }
            let ghost before = out@;
            let mut j: usize = 0;
            while j < l
                invariant
                    j <= l,
                    a + l <= space.mem.len(),
                    out@ == before + space.mem@.subrange(a as int, a + j),
                decreases l - j,
            {
                out.push(space.mem[a + j]);
                j = j + 1;
                assert(out@ =~= before + space.mem@.subrange(a as int, a + j));
            }
        }
        i = i + 1;
    }
    Ok(out)
}

/// `mem` after `data[written..]` is scattered through pieces `i..`, and the
/// total written: a piece takes what is left up to its length, a piece that
/// would take nothing is skipped, and scattering stops at the first unmapped
/// piece or once all data is written.
pub open spec fn scatter_iov_from(mem: Seq<u8>, iovs: Seq<(usize, usize)>, data: Seq<u8>, i: int, written: nat) -> (
    Seq<u8>,
    nat,
)
    decreases iovs.len() - i,
{
    if i < 0 || i >= iovs.len() || written >= data.len() {
        (mem, written)
    } else {
        let a = iovs[i].0 as int;
        let take = min_nat(iovs[i].1 as nat, (data.len() - written) as nat) as int;
        if take == 0 {
            scatter_iov_from(mem, iovs, data, i + 1, written)
        } else if range_ok(mem.len(), a, take) {
            scatter_iov_from(
                write_at(mem, a, data.subrange(written as int, written + take)),
                iovs,
                data,
                i + 1,
                (written + take) as nat,
            )
        } else {
            (mem, written)
        }
    }
}

proof fn lemma_scatter_len(mem: Seq<u8>, iovs: Seq<(usize, usize)>, data: Seq<u8>, i: int, written: nat)
    requires
        written <= data.len(),
    ensures
        scatter_iov_from(mem, iovs, data, i, written).0.len() == mem.len(),
    decreases iovs.len() - i,
{
    if !(i < 0 || i >= iovs.len() || written >= data.len()) {
        let a = iovs[i].0 as int;
        let take = min_nat(iovs[i].1 as nat, (data.len() - written) as nat) as int;
        if take == 0 {
            lemma_scatter_len(mem, iovs, data, i + 1, written);
        } else if range_ok(mem.len(), a, take) {
            let m2 = write_at(mem, a, data.subrange(written as int, written + take));
            assert(m2.len() == mem.len());
            lemma_scatter_len(m2, iovs, data, i + 1, (written + take) as nat);
        }
    }
}

/// What `scatter_iov` does for `cnt` iovecs at `ptr`: nothing when the list
/// cannot be read, else `scatter_iov_from` from the start.
pub open spec fn scattered(mem: Seq<u8>, ptr: usize, cnt: usize, data: Seq<u8>) -> (Seq<u8>, nat) {
    match list_read(mem, ptr, cnt) {
        None => (mem, 0),
        Some(iovs) => scatter_iov_from(mem, iovs, data, 0, 0),
    }
}

/// Scatters `data` into the pieces named by `cnt` iovecs at `ptr`; returns
/// the bytes written.
pub fn scatter_iov(space: &mut UserSpace, ptr: usize, cnt: usize, data: &Vec<u8>) -> (n: usize)
    requires
        IOVEC_SIZE * cnt <= usize::MAX,
    ensures
        (final(space).mem@, n as nat) == scattered(old(space).mem@, ptr, cnt, data@),
        final(space).mem@.len() == old(space).mem@.len(),
{
    proof {
        if let Some(iovs) = list_read(space.mem@, ptr, cnt) {
            lemma_scatter_len(space.mem@, iovs, data@, 0, 0);
        }
    }
    let iovs = match space.read_iovecs(ptr, cnt) {
        Ok(v) => v,
        Err(_) => return 0,
    };
    let ghost mem0 = space.mem@;
    let mut written: usize = 0;
    let mut i: usize = 0;
    while i < iovs.len()
        invariant
            i <= iovs.len(),
            written <= data@.len(),
            list_read(mem0, ptr, cnt) == Some(iovs@),
            mem0 == old(space).mem@,
            space.mem@.len() == mem0.len(),
            scatter_iov_from(mem0, iovs@, data@, 0, 0) == scatter_iov_from(
                space.mem@,
                iovs@,
                data@,
                i as int,
                written as nat,
            ),
        decreases iovs.len() - i,
    {
        if written >= data.len() {
            return written;
        }
        let (a, l) = iovs[i];
        let left = data.len() - written;
        let take = if l < left {
            l
        } else {
            left
        };
        if take != 0 {
            if a > space.mem.len() || take > space.mem.len() - a {
                return written;
            }
            let ghost before = space.mem@;
            let mut j: usize = 0;
            while j < take
                invariant
                    j <= take,
                    a + take <= space.mem.len(),
                    written + take <= data.len(),
                    space.mem@.len() == before.len(),
                    space.mem@ == write_at(before, a as int, data@.subrange(written as int, written + j)),
                decreases take - j,
            {
                space.mem.set(a + j, data[written + j]);
                j = j + 1;
                assert(space.mem@ =~= write_at(before, a as int, data@.subrange(written as int, written + j)));
            }
            written = written + take;
        }
        i = i + 1;
    }
    written
}

/// The count a socket write returns, as the system call's result.
pub open spec fn as_result(n: usize) -> isize {
    n as isize
}

/// The socket kinds that carry data: stream, datagram and raw.
pub open spec fn sends(kind: u32) -> bool {
    kind == SOCK_STREAM || kind == SOCK_RAW || kind == SOCK_DGRAM
}

/// `sendto` on a socket of a pair: the bytes are written to the socket (the
/// destination address is not needed); a bad descriptor is EBADF, a socket
/// kind other than stream, datagram or raw EINVAL. The result is the count
/// the write returns.
pub fn sys_sendto(ns: &mut NetState, sockfd: u32, buf: &[u8]) -> (r: isize)
    requires
        old(ns).wf(),
    ensures
        final(ns).wf(),
        final(ns).sockets@ == old(ns).sockets@,
        final(ns).fds@ == old(ns).fds@,
        match old(ns).socket_of(sockfd as int) {
            None => r == crate::errno::EBADF && final(ns).pipes@ == old(ns).pipes@,
            Some(s) => if sends(old(ns).sockets@[s].socket_type.bits) {
                r == as_result(write_count(old(ns), s, buf@)) && write_effect(old(ns), final(ns), s, buf@)
            } else {
                r == EINVAL && final(ns).pipes@ == old(ns).pipes@
            },
        },
{
    let s = match ns.get_socket(sockfd) {
        Ok(s) => s,
        Err(e) => return e,
    };
    let kind = ns.sockets[s].socket_type.bits;
    if kind == SOCK_STREAM || kind == SOCK_RAW || kind == SOCK_DGRAM {
        let n = ns.write(s, buf);
        n as isize
    } else {
        EINVAL
    }
}

/// `recvfrom` on a socket of a pair: reads up to `len` bytes; a bad
/// descriptor is EBADF, a socket kind other than stream, datagram or raw
/// EINVAL.
pub fn sys_recvfrom(ns: &mut NetState, sockfd: u32, len: u32) -> (r: (isize, Vec<u8>))
    requires
        old(ns).wf(),
    ensures
        final(ns).wf(),
        final(ns).sockets@ == old(ns).sockets@,
        final(ns).fds@ == old(ns).fds@,
        match old(ns).socket_of(sockfd as int) {
            None => r.0 == crate::errno::EBADF && r.1@.len() == 0 && final(ns).pipes@ == old(ns).pipes@,
            Some(s) => if sends(old(ns).sockets@[s].socket_type.bits) {
                &&& r.1@ == read_data(old(ns), s, len as nat)
                &&& r.0 == r.1@.len() as isize
                &&& read_effect(old(ns), final(ns), s, len as nat)
            } else {
                r.0 == EINVAL && r.1@.len() == 0 && final(ns).pipes@ == old(ns).pipes@
            },
        },
{
    let s = match ns.get_socket(sockfd) {
        Ok(s) => s,
        Err(e) => return (e, Vec::new()),
    };
    let kind = ns.sockets[s].socket_type.bits;
    if kind == SOCK_STREAM || kind == SOCK_RAW || kind == SOCK_DGRAM {
        let out = ns.read(s, len as usize);
        (out.len() as isize, out)
    } else {
        (EINVAL, Vec::new())
    }
}


/// A list read from user memory has a total that fits in a word.
pub open spec fn list_fits(mem: Seq<u8>, ptr: usize, cnt: usize) -> bool {
    &&& IOVEC_SIZE * cnt <= usize::MAX
    &&& list_read(mem, ptr, cnt) matches Some(l) ==> iov_total(l) <= usize::MAX
}

/// `sendmsg` on a socket of a pair: the pieces of the message are gathered
/// (their error is returned); an empty message returns 0 at once; a bad
/// descriptor is EBADF; a name that is not mapped is EFAULT; then the data is
/// written to the socket and the write's count returned.
pub fn sys_sendmsg(ns: &mut NetState, space: &UserSpace, sockfd: u32, msg: MsgHdr) -> (r: isize)
    requires
        old(ns).wf(),
        list_fits(space.mem@, msg.msg_iov, msg.msg_iovlen),
    ensures
        final(ns).wf(),
        final(ns).sockets@ == old(ns).sockets@,
        final(ns).fds@ == old(ns).fds@,
        match gathered(space.mem@, msg.msg_iov, msg.msg_iovlen) {
            Err(e) => r == e && final(ns).pipes@ == old(ns).pipes@,
            Ok(data) => if data.len() == 0 {
                r == 0 && final(ns).pipes@ == old(ns).pipes@
            } else {
                match old(ns).socket_of(sockfd as int) {
                    None => r == crate::errno::EBADF && final(ns).pipes@ == old(ns).pipes@,
                    Some(s) => if msg.msg_name != 0 && msg.msg_namelen > 0 && !range_ok(
                        space.mem@.len(),
                        msg.msg_name as int,
                        msg.msg_namelen as int,
                    ) {
                        r == EFAULT && final(ns).pipes@ == old(ns).pipes@
                    } else {
                        r == as_result(write_count(old(ns), s, data)) && write_effect(
                            old(ns),
                            final(ns),
                            s,
                            data,
                        )
                    },
                }
            },
        },
{
    let data = match gather_iov(space, msg.msg_iov, msg.msg_iovlen) {
        Ok(d) => d,
        Err(e) => return e,
    };
    if data.len() == 0 {
        return 0;
    }
    let s = match ns.get_socket(sockfd) {
        Ok(s) => s,
        Err(e) => return e,
    };
    if msg.msg_name != 0 && msg.msg_namelen > 0 {
        let namelen = msg.msg_namelen as usize;
        if msg.msg_name > space.mem.len() || namelen > space.mem.len() - msg.msg_name {
            return EFAULT;
        }
    }
    let n = ns.write(s, data.as_slice());
    n as isize
}

/// What `recvmsg` reads at most: the total length of the pieces when the
/// list is given and readable, else nothing; at least one byte.
pub open spec fn recv_capacity(mem: Seq<u8>, msg: MsgHdr) -> nat {
    let total = if msg.msg_iov != 0 && msg.msg_iovlen > 0 {
        match list_read(mem, msg.msg_iov, msg.msg_iovlen) {
            Some(l) => iov_total(l),
            None => 0,
        }
    } else {
        0
    };
    if total == 0 {
        1
    } else {
        total
    }
}

fn recv_cap(space: &UserSpace, msg: MsgHdr) -> (cap: usize)
    requires
        list_fits(space.mem@, msg.msg_iov, msg.msg_iovlen),
    ensures
        cap == recv_capacity(space.mem@, msg),
{
    let total = if msg.msg_iov != 0 && msg.msg_iovlen > 0 {
        match space.read_iovecs(msg.msg_iov, msg.msg_iovlen) {
            Ok(iovs) => crate::uspace::iovec_total_len(&iovs),
            Err(_) => 0,
        }
    } else {
        0
    };
    if total == 0 {
        1
    } else {
        total
    }
}

/// `recvmsg` on a socket of a pair whose header, read from `msg_ptr`, is
/// `msg`: a bad descriptor is EBADF; otherwise up to `recv_capacity` bytes
/// are read from the socket and scattered into the pieces. When a name was
/// asked for and not everything fit, `MSG_TRUNC` is added to the header's
/// flags in user memory. Returns the bytes scattered.
pub fn sys_recvmsg(ns: &mut NetState, space: &mut UserSpace, sockfd: u32, msg_ptr: usize, msg: MsgHdr) -> (r:
    isize)
    requires
        old(ns).wf(),
        list_fits(old(space).mem@, msg.msg_iov, msg.msg_iovlen),
        range_ok(old(space).mem@.len(), msg_ptr as int, MSG_HDR_SIZE as int),
    ensures
        final(ns).wf(),
        final(ns).sockets@ == old(ns).sockets@,
        final(ns).fds@ == old(ns).fds@,
        match old(ns).socket_of(sockfd as int) {
            None => r == crate::errno::EBADF && final(ns).pipes@ == old(ns).pipes@ && final(space).mem@
                == old(space).mem@,
            Some(s) => {
                let cap = recv_capacity(old(space).mem@, msg);
                let data = read_data(old(ns), s, cap);
                let sc = scattered(old(space).mem@, msg.msg_iov, msg.msg_iovlen, data);
                &&& read_effect(old(ns), final(ns), s, cap)
                &&& r == sc.1 as isize
                &&& final(space).mem@ == if msg.msg_name != 0 && sc.1 < data.len() {
                    write_at(
                        sc.0,
                        msg_ptr + MSG_FLAGS_OFFSET,
                        u32_le((msg.msg_flags | MSG_TRUNC) as u32),
                    )
                } else {
                    sc.0
                }
            },
        },
{
    let s = match ns.get_socket(sockfd) {
        Ok(s) => s,
        Err(e) => return e,
    };
    let mem_len = space.mem.len();
    let cap = recv_cap(space, msg);
    let data = ns.read(s, cap);
    let n = scatter_iov(space, msg.msg_iov, msg.msg_iovlen, &data);
    assert(space.mem@.len() == mem_len);
    if msg.msg_name != 0 && n < data.len() {
        let v: i32 = msg.msg_flags | MSG_TRUNC;
        let flags = u32_le_bytes(v as u32);
        let at = msg_ptr + MSG_FLAGS_OFFSET;
        let ghost before = space.mem@;
        let mut j: usize = 0;
        while j < 4
            invariant
                j <= 4,
                flags@.len() == 4,
                at + 4 <= space.mem.len(),
                space.mem@.len() == before.len(),
                space.mem@ == write_at(before, at as int, flags@.subrange(0, j as int)),
            decreases 4 - j,
        {
            space.mem.set(at + j, flags[j]);
            j = j + 1;
            assert(space.mem@ =~= write_at(before, at as int, flags@.subrange(0, j as int)));
        }
        assert(flags@.subrange(0, 4) =~= flags@);
    }
    n as isize
}

} // verus!
