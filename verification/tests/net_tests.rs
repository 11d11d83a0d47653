use gcore::errno::{
    EAFNOSUPPORT, EBADF, EFAULT, EINVAL, EMFILE, EOPNOTSUPP, EPIPE, ESPIPE, ESRCH, SUCCESS,
};
use gcore::icmp::{IcmpSocket, ICMP_QUEUE_PACKETS};
use gcore::net::{
    sys_accept, sys_bind, sys_connect, sys_getpeername, sys_getsockname, sys_getsockopt, sys_listen,
    sys_setsockopt, sys_sock_shutdown, sys_socket, sys_socketpair, u32_le_bytes, ENOTCONN,
    SOL_SOCKET, SOL_TCP, SO_KEEPALIVE, SO_RCVBUF, SO_REUSEADDR, SO_SNDBUF, TCP_CONGESTION,
    TCP_MAXSEG,
};
use gcore::net::BindReply;
use gcore::process_vm::{sys_process_vm_readv, sys_process_vm_writev};
use gcore::signal::Signals;
use gcore::sockio::{sys_recvfrom, sys_recvmsg, sys_sendmsg, sys_sendto, MsgHdr, MSG_TRUNC};
use gcore::task::{ITimerVal, Task, TaskManager, TaskStatus};
use gcore::time::TimeVal;
use gcore::unix::{
    FileDescriptor, ListenEndpoint, NetState, SHUT_RD, SHUT_WR, SOCK_CLOEXEC, SOCK_DGRAM,
    SOCK_NONBLOCK, SOCK_STREAM, UNIX_BUF_SIZE,
};
use gcore::uspace::{iovec_total_len, UserSpace};

fn empty_net(slots: usize, limit: usize) -> NetState {
    NetState {
        pipes: vec![],
        sockets: vec![],
        fds: vec![None; slots],
        fd_limit: limit,
        pipe_capacity: 64,
    }
}

/// A connected stream pair on descriptors 0 and 1.
fn paired() -> NetState {
    let mut ns = empty_net(3, 16);
    let r = sys_socketpair(&mut ns, 1, SOCK_STREAM, 0);
    assert_eq!(r.ret, SUCCESS);
    assert_eq!(r.sv, Some((0, 1)));
    ns
}

fn put_word(mem: &mut [u8], at: usize, v: u64) {
    mem[at..at + 8].copy_from_slice(&v.to_le_bytes());
}

fn put_iovec(mem: &mut [u8], at: usize, base: u64, len: u64) {
    put_word(mem, at, base);
    put_word(mem, at + 8, len);
}

fn msg(iov: usize, iovlen: usize, name: usize) -> MsgHdr {
    MsgHdr {
        msg_name: name,
        msg_namelen: if name == 0 { 0 } else { 16 },
        msg_iov: iov,
        msg_iovlen: iovlen,
        msg_control: 0,
        msg_controllen: 0,
        msg_flags: 0,
    }
}

#[test]
fn socketpair_fills_lowest_descriptors() {
    let mut ns = empty_net(3, 16);
    let r = sys_socketpair(&mut ns, 1, SOCK_DGRAM | SOCK_CLOEXEC | SOCK_NONBLOCK, 0);
    assert_eq!(r.ret, SUCCESS);
    assert_eq!(r.sv, Some((0, 1)));
    assert_eq!(ns.sockets.len(), 2);
    assert_eq!(ns.pipes.len(), 2);
    assert_eq!(ns.sockets[0].read_end, 0);
    assert_eq!(ns.sockets[0].write_end, 1);
    assert_eq!(ns.sockets[1].read_end, 1);
    assert_eq!(ns.sockets[1].write_end, 0);
    assert_eq!(ns.sockets[0].socket_type.bits, SOCK_DGRAM);
    assert_eq!(ns.sockets[0].recv_buf_size, UNIX_BUF_SIZE);
    assert_eq!(ns.fds[0], Some(FileDescriptor { cloexec: true, nonblock: true, socket: 0 }));
    assert_eq!(ns.fds[1], Some(FileDescriptor { cloexec: true, nonblock: true, socket: 1 }));
    assert_eq!(ns.fds[2], None);
}

#[test]
fn socketpair_grows_the_table_after_the_empty_entries() {
    let mut ns = empty_net(1, 4);
    let r = sys_socketpair(&mut ns, 1, SOCK_STREAM, 0);
    assert_eq!(r.sv, Some((0, 1)));
    assert_eq!(ns.fds.len(), 2);
    assert_eq!(ns.sockets[0].socket_type.bits, SOCK_STREAM);
}

#[test]
fn socketpair_rejects_other_domains_and_types() {
    let mut ns = empty_net(3, 16);
    let r = sys_socketpair(&mut ns, 2, SOCK_STREAM, 0);
    assert_eq!(r.ret, EAFNOSUPPORT);
    assert_eq!(r.sv, None);
    let r = sys_socketpair(&mut ns, 1, 0x4000, 0);
    assert_eq!(r.ret, EINVAL);
    let r = sys_socketpair(&mut ns, 1, 0, 0);
    assert_eq!(r.ret, EINVAL);
    let r = sys_socketpair(&mut ns, 1, SOCK_CLOEXEC, 0);
    assert_eq!(r.ret, EINVAL);
    assert!(ns.sockets.is_empty());
    assert_eq!(ns.fds, vec![None, None, None]);
}

#[test]
fn insert_reports_emfile_when_full() {
    let mut ns = paired();
    ns.fd_limit = 3;
    let d = FileDescriptor { cloexec: false, nonblock: false, socket: 1 };
    assert_eq!(ns.insert(d), Ok(2));
    assert_eq!(ns.insert(d), Err(EMFILE));
    assert_eq!(ns.fds.len(), 3);
    ns.fds[0] = None;
    assert_eq!(ns.insert(d), Ok(0));
}

#[test]
fn what_one_end_writes_the_other_reads() {
    let mut ns = paired();
    assert_eq!(sys_sendto(&mut ns, 0, b"hello"), 5);
    let (n, data) = sys_recvfrom(&mut ns, 1, 3);
    assert_eq!(n, 3);
    assert_eq!(data, b"hel".to_vec());
    let (n, data) = sys_recvfrom(&mut ns, 1, 16);
    assert_eq!(n, 2);
    assert_eq!(data, b"lo".to_vec());
    let (n, data) = sys_recvfrom(&mut ns, 1, 16);
    assert_eq!(n, 0);
    assert!(data.is_empty());
    assert_eq!(sys_sendto(&mut ns, 1, b"back"), 4);
    assert_eq!(sys_recvfrom(&mut ns, 0, 8).1, b"back".to_vec());
}

#[test]
fn write_stops_at_pipe_capacity() {
    let mut ns = paired();
    let big = vec![7u8; 100];
    assert_eq!(sys_sendto(&mut ns, 0, &big), 64);
    assert_eq!(sys_sendto(&mut ns, 0, b"x"), 0);
    assert!(!ns.w_ready(0));
    assert!(ns.r_ready(1));
    assert!(!ns.r_ready(0));
}

#[test]
fn bad_descriptor_is_ebadf() {
    let mut ns = paired();
    assert_eq!(sys_sendto(&mut ns, 2, b"a"), EBADF);
    assert_eq!(sys_sendto(&mut ns, 9, b"a"), EBADF);
    assert_eq!(sys_recvfrom(&mut ns, 2, 4).0, EBADF);
    assert_eq!(sys_listen(&ns, 5, 1), EBADF);
    assert_eq!(sys_accept(&ns, 5, 0, 0), EBADF);
    assert_eq!(sys_connect(&ns, 5, &[]), EBADF);
    assert_eq!(sys_getsockname(&ns, 5), (EBADF, None));
    assert_eq!(sys_getpeername(&ns, 5), (EBADF, None));
    assert_eq!(sys_sock_shutdown(&mut ns, 5, SHUT_RD), EBADF);
    assert_eq!(sys_setsockopt(&mut ns, 5, SOL_SOCKET, SO_SNDBUF, 8), EBADF);
}

#[test]
fn pair_sockets_answer_connection_calls() {
    let ns = paired();
    assert_eq!(sys_listen(&ns, 0, 4), SUCCESS);
    assert_eq!(sys_accept(&ns, 0, 0, 0), EOPNOTSUPP);
    assert_eq!(sys_connect(&ns, 1, &[1, 0]), SUCCESS);
    assert_eq!(
        sys_getsockname(&ns, 0),
        (SUCCESS, Some(ListenEndpoint { addr: Some([0, 0, 0, 0]), port: 0 }))
    );
    assert_eq!(sys_getpeername(&ns, 0), (ENOTCONN, None));
}

#[test]
fn socket_passes_on_allocation_result() {
    assert_eq!(sys_socket(Ok(3)), 3);
    assert_eq!(sys_socket(Err(97)), EAFNOSUPPORT);
}

#[test]
fn shutdown_write_side_gives_epipe() {
    let mut ns = paired();
    assert_eq!(sys_sock_shutdown(&mut ns, 0, SHUT_WR), SUCCESS);
    assert!(ns.sockets[0].shut_wr);
    assert!(!ns.sockets[0].shut_rd);
    assert_eq!(sys_sendto(&mut ns, 0, b"abc"), EPIPE);
    assert!(ns.pipes[1].data.is_empty());
    assert!(!ns.w_ready(0));
}

#[test]
fn shutdown_read_side_reads_nothing() {
    let mut ns = paired();
    assert_eq!(sys_sendto(&mut ns, 0, b"abc"), 3);
    assert_eq!(sys_sock_shutdown(&mut ns, 1, SHUT_RD), SUCCESS);
    assert_eq!(sys_recvfrom(&mut ns, 1, 8), (0, vec![]));
    assert_eq!(ns.pipes[1].data, b"abc".to_vec());
    assert!(!ns.r_ready(1));
}

#[test]
fn getsockopt_answers_each_option() {
    let mut ns = paired();
    let r = sys_getsockopt(&ns, 0, SOL_TCP, TCP_MAXSEG, 1460);
    assert_eq!((r.ret, r.optval, r.optlen), (SUCCESS, Some(vec![0xb4, 0x05, 0, 0]), Some(4)));
    let r = sys_getsockopt(&ns, 0, SOL_TCP, TCP_CONGESTION, 1460);
    assert_eq!(r.optval, Some(b"reno".to_vec()));
    let r = sys_getsockopt(&ns, 0, SOL_SOCKET, SO_SNDBUF, 1460);
    assert_eq!(r.optval, Some(vec![0, 1, 0, 0]));
    let r = sys_getsockopt(&ns, 0, SOL_SOCKET, SO_KEEPALIVE, 1460);
    assert_eq!(r.optval, Some(vec![1, 0, 0, 0]));
    let r = sys_getsockopt(&ns, 0, SOL_SOCKET, SO_REUSEADDR, 1460);
    assert_eq!(r.optval, Some(vec![1, 0, 0, 0]));
    let r = sys_getsockopt(&ns, 0, SOL_SOCKET, 99, 1460);
    assert_eq!((r.ret, r.optval, r.optlen), (SUCCESS, None, None));
    let r = sys_getsockopt(&ns, 7, SOL_SOCKET, SO_RCVBUF, 1460);
    assert_eq!((r.ret, r.optval, r.optlen), (EBADF, None, None));
    assert_eq!(sys_setsockopt(&mut ns, 1, SOL_SOCKET, SO_RCVBUF, 1000), SUCCESS);
    let r = sys_getsockopt(&ns, 1, SOL_SOCKET, SO_RCVBUF, 1460);
    assert_eq!(r.optval, Some(vec![0xe8, 0x03, 0, 0]));
    assert_eq!(ns.sockets[1].send_buf_size, UNIX_BUF_SIZE);
    assert_eq!(sys_setsockopt(&mut ns, 1, SOL_SOCKET, SO_KEEPALIVE, 1), SUCCESS);
    assert_eq!(ns.sockets[1].recv_buf_size, 1000);
}

#[test]
fn u32_words_are_little_endian() {
    assert_eq!(u32_le_bytes(0x01020304), vec![4, 3, 2, 1]);
}

#[test]
fn sendmsg_gathers_pieces() {
    let mut ns = paired();
    let mut mem = vec![0u8; 256];
    put_iovec(&mut mem, 0, 64, 3);
    put_iovec(&mut mem, 16, 0, 0);
    put_iovec(&mut mem, 32, 80, 2);
    mem[64..67].copy_from_slice(b"abc");
    mem[80..82].copy_from_slice(b"de");
    let space = UserSpace { mem };
    assert_eq!(sys_sendmsg(&mut ns, &space, 0, msg(0, 3, 0)), 5);
    assert_eq!(ns.pipes[1].data, b"abcde".to_vec());
}

#[test]
fn sendmsg_faults_on_unmapped_piece() {
    let mut ns = paired();
    let mut mem = vec![0u8; 64];
    put_iovec(&mut mem, 0, 60, 8);
    let space = UserSpace { mem };
    assert_eq!(sys_sendmsg(&mut ns, &space, 0, msg(0, 1, 0)), EFAULT);
    assert_eq!(sys_sendmsg(&mut ns, &space, 0, msg(60, 1, 0)), EFAULT);
    assert!(ns.pipes[1].data.is_empty());
}

#[test]
fn sendmsg_with_nothing_to_send_returns_zero() {
    let mut ns = paired();
    let space = UserSpace { mem: vec![0u8; 16] };
    assert_eq!(sys_sendmsg(&mut ns, &space, 7, msg(0, 0, 0)), 0);
}

#[test]
fn recvmsg_scatters_and_flags_truncation() {
    let mut ns = paired();
    assert_eq!(sys_sendto(&mut ns, 0, b"hello"), 5);
    let mut mem = vec![0u8; 256];
    put_iovec(&mut mem, 32, 100, 2);
    put_iovec(&mut mem, 48, 254, 10);
    let mut space = UserSpace { mem };
    let r = sys_recvmsg(&mut ns, &mut space, 1, 128, msg(32, 2, 200));
    assert_eq!(r, 2);
    assert_eq!(&space.mem[100..102], b"he");
    assert_eq!(&space.mem[176..180], &[MSG_TRUNC as u8, 0, 0, 0]);
    assert!(ns.pipes[0].data.is_empty());
}

#[test]
fn recvmsg_fills_every_piece() {
    let mut ns = paired();
    assert_eq!(sys_sendto(&mut ns, 0, b"hello"), 5);
    let mut mem = vec![0u8; 256];
    put_iovec(&mut mem, 32, 100, 2);
    put_iovec(&mut mem, 48, 200, 10);
    let mut space = UserSpace { mem };
    assert_eq!(sys_recvmsg(&mut ns, &mut space, 1, 128, msg(32, 2, 0)), 5);
    assert_eq!(&space.mem[100..102], b"he");
    assert_eq!(&space.mem[200..203], b"llo");
    assert_eq!(&space.mem[176..180], &[0, 0, 0, 0]);
    assert_eq!(sys_recvmsg(&mut ns, &mut space, 9, 128, msg(32, 2, 0)), EBADF);
}

fn timer() -> ITimerVal {
    ITimerVal {
        it_interval: TimeVal { tv_sec: 0, tv_usec: 0 },
        it_value: TimeVal { tv_sec: 0, tv_usec: 0 },
    }
}

fn one_task_manager() -> TaskManager {
    TaskManager {
        tasks: vec![Task {
            pid: 5,
            tgid: 5,
            pgid: 5,
            parent: None,
            status: TaskStatus::Running,
            sigpending: Signals { bits: 0 },
            sigmask: Signals { bits: 0 },
            exit_code: 0,
            clear_child_tid: 0,
            robust_head: 0,
            robust_len: 24,
            heap_bottom: 0,
            heap_pt: 0,
            timer_real: timer(),
            timer_virtual: timer(),
            timer_prof: timer(),
            fd_soft_limit: 64,
            fd_hard_limit: 64,
            utime_ticks: 0,
            stime_ticks: 0,
        }],
        current: 0,
        user_stack_size: 0x1000,
        task_limit: 8,
        user_heap_size: 0x1000,
    }
}

#[test]
fn process_vm_readv_copies_from_target() {
    let tm = one_task_manager();
    let mut local = vec![0u8; 128];
    put_iovec(&mut local, 0, 64, 2);
    put_iovec(&mut local, 16, 96, 8);
    put_iovec(&mut local, 32, 8, 5);
    let mut curr = UserSpace { mem: local };
    let mut remote = vec![0u8; 32];
    remote[8..13].copy_from_slice(b"abcde");
    let target = UserSpace { mem: remote };
    let r = sys_process_vm_readv(&tm, 5, &mut curr, &target, 0, 2, 32, 1, 0);
    assert_eq!(r, 5);
    assert_eq!(&curr.mem[64..66], b"ab");
    assert_eq!(&curr.mem[96..99], b"cde");
    assert_eq!(curr.mem[99], 0);
}

#[test]
fn process_vm_readv_errors() {
    let tm = one_task_manager();
    let mut local = vec![0u8; 64];
    put_iovec(&mut local, 0, 40, 4);
    let mut curr = UserSpace { mem: local.clone() };
    let target = UserSpace { mem: vec![1u8; 16] };
    assert_eq!(sys_process_vm_readv(&tm, 6, &mut curr, &target, 0, 1, 0, 1, 0), ESRCH);
    assert_eq!(sys_process_vm_readv(&tm, 5, &mut curr, &target, 60, 1, 0, 1, 0), EFAULT);
    assert_eq!(curr.mem, local);
}

#[test]
fn process_vm_writev_copies_to_target() {
    let tm = one_task_manager();
    let mut local = vec![0u8; 128];
    put_iovec(&mut local, 0, 64, 4);
    put_iovec(&mut local, 16, 2, 3);
    local[64..68].copy_from_slice(b"wxyz");
    let curr = UserSpace { mem: local };
    let mut target = UserSpace { mem: vec![0u8; 16] };
    let r = sys_process_vm_writev(&tm, 5, &curr, &mut target, 0, 1, 16, 1, 0);
    assert_eq!(r, 3);
    assert_eq!(&target.mem[2..5], b"wxy");
    assert_eq!(target.mem[5], 0);
}

#[test]
fn iovec_lengths_add_up() {
    assert_eq!(iovec_total_len(&vec![(0, 3), (10, 0), (20, 4)]), 7);
    assert_eq!(iovec_total_len(&vec![]), 0);
}

#[test]
fn read_iovecs_decodes_the_array() {
    let mut mem = vec![0u8; 64];
    put_iovec(&mut mem, 16, 0x1234, 9);
    let space = UserSpace { mem };
    assert_eq!(space.read_iovecs(16, 1), Ok(vec![(0x1234, 9)]));
    assert_eq!(space.read_iovecs(60, 1), Err(EFAULT));
    assert_eq!(space.read_iovecs(60, 0), Ok(vec![]));
    assert_eq!(space.read_word(16), 0x1234);
}

#[test]
fn bind_by_socket_kind() {
    let mut ns = paired();
    let ep = Some(ListenEndpoint { addr: Some([127, 0, 0, 1]), port: 80 });
    assert_eq!(sys_bind(&mut ns, 0, ep, None), BindReply { ret: SUCCESS, table_entry: None });
    assert_eq!(sys_bind(&mut ns, 0, None, Some(1)), BindReply { ret: SUCCESS, table_entry: None });
    assert_eq!(sys_bind(&mut ns, 4, ep, None), BindReply { ret: EBADF, table_entry: None });
    ns.sockets[1].socket_type.bits = 3;
    assert_eq!(sys_bind(&mut ns, 1, ep, None), BindReply { ret: EINVAL, table_entry: None });
    assert_eq!(ns.fds.len(), 3);
}

#[test]
fn bind_datagram_shares_bound_socket() {
    let mut ns = empty_net(3, 16);
    assert_eq!(sys_socketpair(&mut ns, 1, SOCK_DGRAM, 0).ret, SUCCESS);
    let ep = Some(ListenEndpoint { addr: None, port: 5353 });
    assert_eq!(sys_bind(&mut ns, 0, ep, None), BindReply { ret: SUCCESS, table_entry: None });
    assert_eq!(ns.fds[2], None);
    let r = sys_bind(&mut ns, 1, ep, Some(0));
    assert_eq!(r, BindReply { ret: SUCCESS, table_entry: Some((1, 0)) });
    assert_eq!(ns.fds[2], Some(FileDescriptor { cloexec: false, nonblock: false, socket: 0 }));
}

#[test]
fn icmp_socket_queues_until_full() {
    let mut s = IcmpSocket::new();
    assert!(s.w_ready());
    assert!(!s.r_ready());
    let mut buf = [9u8; 16];
    assert_eq!(s.read(&mut buf), 0);
    assert_eq!(buf, [9u8; 16]);
    for _ in 0..ICMP_QUEUE_PACKETS {
        assert_eq!(s.write(b"ping"), 4);
    }
    assert!(!s.w_ready());
    assert_eq!(s.write(b"ping"), 0);
    assert_eq!(s.socket_type().bits, 3);
    assert_eq!(s.recv_buf_size(), 65536);
    assert_eq!(s.lseek(0), Err(ESPIPE));
    assert_eq!(s.get_stat().st_dev.minor, 7);
}

#[test]
fn icmp_socket_binds_once() {
    let mut s = IcmpSocket::new();
    assert_eq!(s.socket.packet_send_capacity(), ICMP_QUEUE_PACKETS);
    assert!(!s.socket.is_open());
    assert_eq!(s.bind(ListenEndpoint { addr: None, port: 0 }), Err(EINVAL));
    let ep = ListenEndpoint { addr: Some([127, 0, 0, 1]), port: 0 };
    assert_eq!(s.bind(ep), Ok(0));
    assert!(s.socket.is_open());
    assert_eq!(s.socket.packet_send_capacity(), ICMP_QUEUE_PACKETS);
    assert_eq!(s.bind(ep), Err(EINVAL));
    assert_eq!(s.accept(3, 0, 0), Err(EOPNOTSUPP));
    assert_eq!(s.loacl_endpoint(), ListenEndpoint { addr: None, port: 0 });
    assert!(s.remote_endpoint().is_none());
    let fresh = s.deep_clone();
    assert!(fresh.w_ready());
}

#[test]
fn icmp_payload_must_fit_the_ring() {
    let mut s = IcmpSocket::new();
    let too_big = vec![1u8; 65537];
    assert_eq!(s.write(&too_big), 0);
    let whole = vec![2u8; 65536];
    assert_eq!(s.write(&whole), 65536);
    assert!(s.w_ready());
    assert_eq!(s.write(b"x"), 0);
}
