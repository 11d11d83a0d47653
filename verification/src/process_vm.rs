//! `process_vm_readv` / `process_vm_writev`: copying between the memory of
//! two processes through scatter-gather lists.
use vstd::prelude::*;
use crate::errno::{ESRCH, EFAULT};
use crate::task::{TaskManager, find_by_pid};
use crate::uspace::{UserSpace, iov_total, iovec_total_len, lemma_iov_total_prefix, iovecs_of, list_read, range_ok, IOVEC_SIZE};

verus! {

/// The smaller of two numbers.
pub open spec fn min_nat(a: nat, b: nat) -> nat {
    if a < b {
        a
    } else {
        b
    }
}

/// Bytes gathered from `mem` through pieces `i..`, after `acc`: each piece is
/// cut to what is still wanted up to `limit`; gathering stops at the first
/// unmapped piece or once `limit` bytes are there.
pub open spec fn gather_from(mem: Seq<u8>, iovs: Seq<(usize, usize)>, limit: nat, i: int, acc: Seq<
    u8,
>) -> Seq<u8>
    decreases iovs.len() - i,
{
    if i < 0 || i >= iovs.len() || acc.len() >= limit {
        acc
    } else {
        let a = iovs[i].0 as int;
        let take = min_nat(iovs[i].1 as nat, (limit - acc.len()) as nat) as int;
        if range_ok(mem.len(), a, take) {
            gather_from(mem, iovs, limit, i + 1, acc + mem.subrange(a, a + take))
        } else {
            acc
        }
    }
}

/// `mem` with `bytes` written from `addr`.
pub open spec fn write_at(mem: Seq<u8>, addr: int, bytes: Seq<u8>) -> Seq<u8> {
    mem.subrange(0, addr) + bytes + mem.subrange(addr + bytes.len(), mem.len() as int)
}

/// `mem` after `data[written..]` is scattered through pieces `i..`, and the
/// total written: each piece takes what is left of the data up to its
/// length; scattering stops at the first unmapped piece or when all data is
/// written.
pub open spec fn scatter_from(mem: Seq<u8>, iovs: Seq<(usize, usize)>, data: Seq<u8>, i: int, written: nat) -> (
    Seq<u8>,
    nat,
)
    decreases iovs.len() - i,
{
    if i < 0 || i >= iovs.len() || written >= data.len() {
        (mem, written)
    } else {
        let a = iovs[i].0 as int;
        let take = min_nat(iovs[i].1 as nat, (data.len() - written) as nat) as int;
        if range_ok(mem.len(), a, take) {
            scatter_from(
                write_at(mem, a, data.subrange(written as int, written + take)),
                iovs,
                data,
                i + 1,
                (written + take) as nat,
            )
        } else {
            (mem, written)
        }
    }
}

/// The buffer of a copy: the gathered bytes, padded with zeros to `len`.
pub open spec fn copy_buffer(mem: Seq<u8>, iovs: Seq<(usize, usize)>, len: nat) -> Seq<u8> {
    let g = gather_from(mem, iovs, len, 0, Seq::empty());
    g + Seq::new((len - g.len()) as nat, |_k: int| 0u8)
}

proof fn lemma_gather_len(mem: Seq<u8>, iovs: Seq<(usize, usize)>, limit: nat, i: int, acc: Seq<u8>)
    requires
        acc.len() <= limit,
    ensures
        acc.len() <= gather_from(mem, iovs, limit, i, acc).len() <= limit,
        gather_from(mem, iovs, limit, i, acc).subrange(0, acc.len() as int) == acc,
    decreases iovs.len() - i,
{
    if !(i < 0 || i >= iovs.len() || acc.len() >= limit) {
        let a = iovs[i].0 as int;
        let take = min_nat(iovs[i].1 as nat, (limit - acc.len()) as nat) as int;
        if range_ok(mem.len(), a, take) {
            let acc2 = acc + mem.subrange(a, a + take);
            lemma_gather_len(mem, iovs, limit, i + 1, acc2);
            let g = gather_from(mem, iovs, limit, i + 1, acc2);
            assert(g.subrange(0, acc.len() as int) =~= g.subrange(0, acc2.len() as int).subrange(0, acc.len() as int));
            assert(acc2.subrange(0, acc.len() as int) =~= acc);
        }
    } else {
        assert(acc.subrange(0, acc.len() as int) =~= acc);
    }
}

/// Gathers up to `limit` bytes from `mem` through `iovs`.
fn gather(src: &UserSpace, iovs: &Vec<(usize, usize)>, limit: usize) -> (out: Vec<u8>)
    ensures
        out@ == gather_from(src.mem@, iovs@, limit as nat, 0, Seq::empty()),
{
    let mut out: Vec<u8> = Vec::new();
    let mut i: usize = 0;
    while i < iovs.len()
        invariant
            i <= iovs.len(),
            out@.len() <= limit,
            gather_from(src.mem@, iovs@, limit as nat, 0, Seq::empty()) == gather_from(
                src.mem@,
                iovs@,
                limit as nat,
                i as int,
                out@,
            ),
        decreases iovs.len() - i,
    {
        if out.len() >= limit {
            return out;
        }
        let (a, l) = iovs[i];
        let want = limit - out.len();
        let take = if l < want {
            l
        } else {
            want
        };
        if a > src.mem.len() || take > src.mem.len() - a {
            return out;
        }
        let ghost before = out@;
        let mut j: usize = 0;
        while j < take
            invariant
                j <= take,
                a + take <= src.mem.len(),
                out@ == before + src.mem@.subrange(a as int, a + j),
            decreases take - j,
        {
            out.push(src.mem[a + j]);
            j = j + 1;
            assert(out@ =~= before + src.mem@.subrange(a as int, a + j));
        }
        i = i + 1;
    }
    out
}

/// Writes `data[from..from + take]` to `dst` at `addr`.
pub(crate) fn write_bytes(dst: &mut UserSpace, addr: usize, data: &Vec<u8>, from: usize, take: usize)
    requires
        addr + take <= old(dst).mem@.len(),
        from + take <= data@.len(),
    ensures
        final(dst).mem@ == write_at(old(dst).mem@, addr as int, data@.subrange(from as int, from + take)),
{
    let mut j: usize = 0;
    while j < take
        invariant
            j <= take,
            addr + take <= dst.mem.len(),
            from + take <= data.len(),
            dst.mem@.len() == old(dst).mem@.len(),
            dst.mem@ == write_at(old(dst).mem@, addr as int, data@.subrange(from as int, from + j)),
        decreases take - j,
    {
        dst.mem.set(addr + j, data[from + j]);
        j = j + 1;
        assert(dst.mem@ =~= write_at(old(dst).mem@, addr as int, data@.subrange(from as int, from + j)));
    }
}

/// Scatters `data` through `iovs` into `dst` and returns the bytes written.
fn scatter(dst: &mut UserSpace, iovs: &Vec<(usize, usize)>, data: &Vec<u8>) -> (n: usize)
    ensures
        (final(dst).mem@, n as nat) == scatter_from(old(dst).mem@, iovs@, data@, 0, 0),
{
    let mut written: usize = 0;
    let mut i: usize = 0;
    while i < iovs.len()
        invariant
            i <= iovs.len(),
            written <= data@.len(),
            scatter_from(old(dst).mem@, iovs@, data@, 0, 0) == scatter_from(
                dst.mem@,
                iovs@,
                data@,
                i as int,
                written as nat,
            ),
        decreases iovs.len() - i,
    {
        if written >= data.len() {
            return written;
        }
        let (a, l) = iovs[i];
        let left = data.len() - written;
        let take = if l < left {
            l
        } else {
            left
        };
        if a > dst.mem.len() || take > dst.mem.len() - a {
            return written;
        }
        write_bytes(dst, a, data, written, take);
        written = written + take;
        i = i + 1;
    }
    written
}

/// Copies from `src` through `src_iovs` to `dst` through `dst_iovs`: as many
/// bytes as the smaller total. The source pieces are gathered until one is
/// unmapped (the rest of the buffer stays zero), then the buffer is scattered
/// into the destination pieces until one is unmapped. Returns the bytes
/// written to the destination.
pub fn process_vm_copy(
    src: &UserSpace,
    src_iovs: &Vec<(usize, usize)>,
    dst: &mut UserSpace,
    dst_iovs: &Vec<(usize, usize)>,
) -> (n: usize)
    requires
        iov_total(src_iovs@) <= usize::MAX,
        iov_total(dst_iovs@) <= usize::MAX,
    ensures
        ({
            let len = min_nat(iov_total(src_iovs@), iov_total(dst_iovs@));
            if len == 0 {
                n == 0 && final(dst).mem@ == old(dst).mem@
            } else {
                (final(dst).mem@, n as nat) == scatter_from(
                    old(dst).mem@,
                    dst_iovs@,
                    copy_buffer(src.mem@, src_iovs@, len),
                    0,
                    0,
                )
            }
        }),
{
    let src_total = iovec_total_len(src_iovs);
    let dst_total = iovec_total_len(dst_iovs);
    let copy_len = if src_total < dst_total {
        src_total
    } else {
        dst_total
    };
    if copy_len == 0 {
        return 0;
    }
    let mut temp = gather(src, src_iovs, copy_len);
    proof {
        lemma_gather_len(src.mem@, src_iovs@, copy_len as nat, 0, Seq::empty());
    }
    let ghost g = temp@;
    while temp.len() < copy_len
        invariant
            temp@.len() <= copy_len,
            g.len() <= temp@.len(),
            temp@ == g + Seq::new((temp@.len() - g.len()) as nat, |_k: int| 0u8),
        decreases copy_len - temp.len(),
    {
        temp.push(0u8);
        assert(temp@ =~= g + Seq::new((temp@.len() - g.len()) as nat, |_k: int| 0u8));
    }
    scatter(dst, dst_iovs, &temp)
}

/// The iovecs at `ptr` in `mem`.
pub open spec fn iovs_at(mem: Seq<u8>, ptr: usize, cnt: usize) -> Seq<(usize, usize)> {
    iovecs_of(mem.subrange(ptr as int, ptr + IOVEC_SIZE * cnt), cnt as nat)
}

/// A list read from user memory has a total that fits in a word.
pub open spec fn iovs_fit(mem: Seq<u8>, ptr: usize, cnt: usize) -> bool {
    &&& IOVEC_SIZE * cnt <= usize::MAX
    &&& (cnt > 0 && range_ok(mem.len(), ptr as int, IOVEC_SIZE * cnt)) ==> iov_total(iovs_at(mem, ptr, cnt))
        <= usize::MAX
}

/// Destination memory and bytes written by `process_vm_copy`.
pub open spec fn vm_copy(src: Seq<u8>, src_iovs: Seq<(usize, usize)>, dst: Seq<u8>, dst_iovs: Seq<(usize, usize)>) -> (
    Seq<u8>,
    nat,
) {
    let len = min_nat(iov_total(src_iovs), iov_total(dst_iovs));
    if len == 0 {
        (dst, 0)
    } else {
        scatter_from(dst, dst_iovs, copy_buffer(src, src_iovs, len), 0, 0)
    }
}

/// `process_vm_readv`: copies from the memory of process `pid` (`target`)
/// through the remote list into the caller's memory (`curr`) through the
/// local list; both lists are read from the caller's memory. A list that
/// cannot be read is EFAULT; no live thread `pid` is ESRCH. The result is the
/// number of bytes copied.
pub fn sys_process_vm_readv(
    tm: &TaskManager,
    pid: usize,
    curr: &mut UserSpace,
    target: &UserSpace,
    lvec: usize,
    liovcnt: usize,
    rvec: usize,
    riovcnt: usize,
    _flags: usize,
) -> (r: isize)
    requires
        iovs_fit(old(curr).mem@, lvec, liovcnt),
        iovs_fit(old(curr).mem@, rvec, riovcnt),
    ensures
        match (list_read(old(curr).mem@, lvec, liovcnt), list_read(old(curr).mem@, rvec, riovcnt)) {
            (Some(local), Some(remote)) => if find_by_pid(tm.tasks@, pid) is None {
                r == ESRCH && final(curr).mem@ == old(curr).mem@
            } else {
                (final(curr).mem@, r as int) == (vm_copy(target.mem@, remote, old(curr).mem@, local).0, vm_copy(
                    target.mem@,
                    remote,
                    old(curr).mem@,
                    local,
                ).1 as isize as int)
            },
            _ => r == EFAULT && final(curr).mem@ == old(curr).mem@,
        },
{
    let local = match curr.read_iovecs(lvec, liovcnt) {
        Ok(v) => v,
        Err(e) => return e,
    };
    let remote = match curr.read_iovecs(rvec, riovcnt) {
        Ok(v) => v,
        Err(e) => return e,
    };
    match tm.find_task_by_pid(pid) {
        Some(_) => {},
        None => return ESRCH,
    }
    let n = process_vm_copy(target, &remote, curr, &local);
    n as isize
}

/// `process_vm_writev`: copies from the caller's memory (`curr`) through the
/// local list into the memory of process `pid` (`target`) through the remote
/// list; both lists are read from the caller's memory. A list that cannot be
/// read is EFAULT; no live thread `pid` is ESRCH. The result is the number of
/// bytes copied.
pub fn sys_process_vm_writev(
    tm: &TaskManager,
    pid: usize,
    curr: &UserSpace,
    target: &mut UserSpace,
    lvec: usize,
    liovcnt: usize,
    rvec: usize,
    riovcnt: usize,
    _flags: usize,
) -> (r: isize)
    requires
        iovs_fit(curr.mem@, lvec, liovcnt),
        iovs_fit(curr.mem@, rvec, riovcnt),
    ensures
        match (list_read(curr.mem@, lvec, liovcnt), list_read(curr.mem@, rvec, riovcnt)) {
            (Some(local), Some(remote)) => if find_by_pid(tm.tasks@, pid) is None {
                r == ESRCH && final(target).mem@ == old(target).mem@
            } else {
                (final(target).mem@, r as int) == (vm_copy(curr.mem@, local, old(target).mem@, remote).0, vm_copy(
                    curr.mem@,
                    local,
                    old(target).mem@,
                    remote,
                ).1 as isize as int)
            },
            _ => r == EFAULT && final(target).mem@ == old(target).mem@,
        },
{
    let local = match curr.read_iovecs(lvec, liovcnt) {
        Ok(v) => v,
        Err(e) => return e,
    };
    let remote = match curr.read_iovecs(rvec, riovcnt) {
        Ok(v) => v,
        Err(e) => return e,
    };
    match tm.find_task_by_pid(pid) {
        Some(_) => {},
        None => return ESRCH,
    }
    let n = process_vm_copy(curr, &local, target, &remote);
    n as isize
}


proof fn lemma_scatter_bounded(mem: Seq<u8>, iovs: Seq<(usize, usize)>, data: Seq<u8>, i: int, written: nat)
    requires
        written <= data.len(),
    ensures
        written <= scatter_from(mem, iovs, data, i, written).1 <= data.len(),
    decreases iovs.len() - i,
{
    if !(i < 0 || i >= iovs.len() || written >= data.len()) {
        let a = iovs[i].0 as int;
        let take = min_nat(iovs[i].1 as nat, (data.len() - written) as nat) as int;
        if range_ok(mem.len(), a, take) {
            lemma_scatter_bounded(
                write_at(mem, a, data.subrange(written as int, written + take)),
                iovs,
                data,
                i + 1,
                (written + take) as nat,
            );
        }
    }
}

/// A copy between processes never moves more than the smaller of the two
/// lists' totals.
pub proof fn law_copy_bounded(src: Seq<u8>, src_iovs: Seq<(usize, usize)>, dst: Seq<u8>, dst_iovs: Seq<(usize, usize)>)
    ensures
        vm_copy(src, src_iovs, dst, dst_iovs).1 <= min_nat(iov_total(src_iovs), iov_total(dst_iovs)),
{
    let len = min_nat(iov_total(src_iovs), iov_total(dst_iovs));
    if len > 0 {
        lemma_gather_len(src, src_iovs, len, 0, Seq::empty());
        lemma_scatter_bounded(dst, dst_iovs, copy_buffer(src, src_iovs, len), 0, 0);
    }
}

/// Every piece of `iovs` lies in mapped memory of `len` bytes.
pub open spec fn all_mapped(len: nat, iovs: Seq<(usize, usize)>) -> bool {
    forall|k: int| 0 <= k < iovs.len() ==> range_ok(len, #[trigger] iovs[k].0 as int, iovs[k].1 as int)
}

/// The bytes of the pieces of `iovs`, one after another in list order.
pub open spec fn pieces(mem: Seq<u8>, iovs: Seq<(usize, usize)>) -> Seq<u8>
    decreases iovs.len(),
{
    if iovs.len() == 0 {
        Seq::empty()
    } else {
        pieces(mem, iovs.drop_last()) + mem.subrange(
            iovs.last().0 as int,
            iovs.last().0 + iovs.last().1,
        )
    }
}

proof fn lemma_pieces_len(mem: Seq<u8>, iovs: Seq<(usize, usize)>)
    requires
        all_mapped(mem.len(), iovs),
    ensures
        pieces(mem, iovs).len() == iov_total(iovs),
    decreases iovs.len(),
{
    if iovs.len() > 0 {
        let p = iovs.drop_last();
        assert forall|k: int| 0 <= k < p.len() implies range_ok(mem.len(), #[trigger] p[k].0 as int, p[k].1 as int) by {
            assert(p[k] == iovs[k]);
        }
        lemma_pieces_len(mem, p);
        assert(iovs.last() == iovs[iovs.len() - 1]);
    }
}

/// The first pieces' bytes start the bytes of all the pieces.
proof fn lemma_pieces_prefix(mem: Seq<u8>, iovs: Seq<(usize, usize)>, k: int, j: int)
    requires
        0 <= k <= j <= iovs.len(),
        all_mapped(mem.len(), iovs),
    ensures
        pieces(mem, iovs.subrange(0, k)).len() <= pieces(mem, iovs.subrange(0, j)).len(),
        pieces(mem, iovs.subrange(0, j)).subrange(0, pieces(mem, iovs.subrange(0, k)).len() as int)
            == pieces(mem, iovs.subrange(0, k)),
    decreases j - k,
{
    let pk = pieces(mem, iovs.subrange(0, k));
    if k == j {
        assert(pk.subrange(0, pk.len() as int) =~= pk);
    } else {
        lemma_pieces_prefix(mem, iovs, k, j - 1);
        let s = iovs.subrange(0, j);
        assert(s.drop_last() =~= iovs.subrange(0, j - 1));
        let pj1 = pieces(mem, iovs.subrange(0, j - 1));
        let pj = pieces(mem, s);
        assert(pj == pj1 + mem.subrange(s.last().0 as int, s.last().0 + s.last().1));
        assert(pj.subrange(0, pk.len() as int) =~= pj1.subrange(0, pk.len() as int));
    }
}

proof fn lemma_gather_pieces(mem: Seq<u8>, iovs: Seq<(usize, usize)>, limit: nat, k: int)
    requires
        0 <= k <= iovs.len(),
        all_mapped(mem.len(), iovs),
        iov_total(iovs) <= limit,
    ensures
        gather_from(mem, iovs, limit, k, pieces(mem, iovs.subrange(0, k))) == pieces(mem, iovs),
    decreases iovs.len() - k,
{
    let n = iovs.len() as int;
    assert(iovs.subrange(0, n) =~= iovs);
    let acc = pieces(mem, iovs.subrange(0, k));
    assert forall|j: int| 0 <= j <= n implies pieces(mem, #[trigger] iovs.subrange(0, j)).len() == iov_total(
        iovs.subrange(0, j),
    ) by {
        let s = iovs.subrange(0, j);
        assert forall|m: int| 0 <= m < s.len() implies range_ok(mem.len(), #[trigger] s[m].0 as int, s[m].1 as int) by {
            assert(s[m] == iovs[m]);
        }
        lemma_pieces_len(mem, s);
    }
    lemma_iov_total_prefix(iovs, k);
    if k < n {
        if acc.len() >= limit {
            // The first k pieces hold everything: the rest are empty.
            lemma_pieces_prefix(mem, iovs, k, n);
            assert(pieces(mem, iovs) =~= acc);
        } else {
            lemma_iov_total_prefix(iovs, k + 1);
            let s = iovs.subrange(0, k + 1);
            assert(s.drop_last() =~= iovs.subrange(0, k));
            assert(s.last() == iovs[k]);
            assert(iov_total(s) == iov_total(iovs.subrange(0, k)) + iovs[k].1);
            let a = iovs[k].0 as int;
            assert(range_ok(mem.len(), a, iovs[k].1 as int));
            assert(min_nat(iovs[k].1 as nat, (limit - acc.len()) as nat) == iovs[k].1);
            assert(acc + mem.subrange(a, a + iovs[k].1) == pieces(mem, s));
            lemma_gather_pieces(mem, iovs, limit, k + 1);
        }
    }
}

/// Gathering through pieces that are all mapped, with room for all of them,
/// yields the bytes of every piece one after another in list order; and so
/// does the buffer of a copy whose length is the pieces' total.
pub proof fn law_gather_concatenates(mem: Seq<u8>, iovs: Seq<(usize, usize)>, limit: nat)
    requires
        all_mapped(mem.len(), iovs),
        iov_total(iovs) <= limit,
    ensures
        gather_from(mem, iovs, limit, 0, Seq::empty()) == pieces(mem, iovs),
        copy_buffer(mem, iovs, iov_total(iovs)) == pieces(mem, iovs),
{
    assert(pieces(mem, iovs.subrange(0, 0)) =~= Seq::<u8>::empty());
    lemma_gather_pieces(mem, iovs, limit, 0);
    lemma_gather_pieces(mem, iovs, iov_total(iovs), 0);
    lemma_pieces_len(mem, iovs);
    let g = pieces(mem, iovs);
    assert(g + Seq::new((iov_total(iovs) - g.len()) as nat, |_k: int| 0u8) =~= g);
}

proof fn lemma_scatter_count(mem: Seq<u8>, iovs: Seq<(usize, usize)>, data: Seq<u8>, k: int, written: nat)
    requires
        0 <= k <= iovs.len(),
        all_mapped(mem.len(), iovs),
        written == min_nat(data.len(), iov_total(iovs.subrange(0, k))),
    ensures
        scatter_from(mem, iovs, data, k, written).1 == min_nat(data.len(), iov_total(iovs)),
        scatter_from(mem, iovs, data, k, written).0.len() == mem.len(),
    decreases iovs.len() - k,
{
    let n = iovs.len() as int;
    assert(iovs.subrange(0, n) =~= iovs);
    lemma_iov_total_prefix(iovs, k);
    if k < n && written < data.len() {
        let s = iovs.subrange(0, k + 1);
        assert(s.drop_last() =~= iovs.subrange(0, k));
        assert(s.last() == iovs[k]);
        assert(iov_total(s) == iov_total(iovs.subrange(0, k)) + iovs[k].1);
        let a = iovs[k].0 as int;
        let take = min_nat(iovs[k].1 as nat, (data.len() - written) as nat) as int;
        assert(range_ok(mem.len(), a, iovs[k].1 as int));
        let mem2 = write_at(mem, a, data.subrange(written as int, written + take));
        assert(mem2.len() == mem.len());
        lemma_scatter_count(mem2, iovs, data, k + 1, (written + take) as nat);
    }
}

/// A copy into destination pieces that are all mapped moves exactly the
/// smaller of the two lists' totals: the source side is padded with zeros
/// past its first unmapped piece, so only the destination can cut it short.
pub proof fn law_copy_count(src: Seq<u8>, src_iovs: Seq<(usize, usize)>, dst: Seq<u8>, dst_iovs: Seq<(usize, usize)>)
    requires
        all_mapped(dst.len(), dst_iovs),
    ensures
        vm_copy(src, src_iovs, dst, dst_iovs).1 == min_nat(iov_total(src_iovs), iov_total(dst_iovs)),
        vm_copy(src, src_iovs, dst, dst_iovs).0.len() == dst.len(),
{
    let len = min_nat(iov_total(src_iovs), iov_total(dst_iovs));
    if len > 0 {
        lemma_gather_len(src, src_iovs, len, 0, Seq::empty());
        assert(iov_total(dst_iovs.subrange(0, 0)) == 0);
        lemma_scatter_count(dst, dst_iovs, copy_buffer(src, src_iovs, len), 0, 0);
    }
}

/// Each piece of `iovs` ends at or before the start of every later one.
pub open spec fn ascending(iovs: Seq<(usize, usize)>) -> bool {
    forall|i: int, j: int|
        0 <= i < j < iovs.len() ==> #[trigger] iovs[i].0 + iovs[i].1 <= #[trigger] iovs[j].0
}

proof fn lemma_write_keeps_pieces(mem: Seq<u8>, p: Seq<(usize, usize)>, a: int, b: Seq<u8>)
    requires
        0 <= a,
        a + b.len() <= mem.len(),
        all_mapped(mem.len(), p),
        forall|m: int| 0 <= m < p.len() ==> #[trigger] p[m].0 + p[m].1 <= a,
    ensures
        pieces(write_at(mem, a, b), p) == pieces(mem, p),
    decreases p.len(),
{
    if p.len() > 0 {
        let q = p.drop_last();
        assert forall|m: int| 0 <= m < q.len() implies range_ok(mem.len(), #[trigger] q[m].0 as int, q[m].1 as int) by {
            assert(q[m] == p[m]);
        }
        assert forall|m: int| 0 <= m < q.len() implies #[trigger] q[m].0 + q[m].1 <= a by {
            assert(q[m] == p[m]);
        }
        lemma_write_keeps_pieces(mem, q, a, b);
        let x = p.last().0 as int;
        let l = p.last().1 as int;
        assert(p.last() == p[p.len() - 1]);
        assert(x + l <= a);
        assert(write_at(mem, a, b).subrange(x, x + l) =~= mem.subrange(x, x + l));
    }
}

proof fn lemma_scatter_content(mem: Seq<u8>, iovs: Seq<(usize, usize)>, data: Seq<u8>, k: int, written: nat)
    requires
        0 <= k <= iovs.len(),
        all_mapped(mem.len(), iovs),
        ascending(iovs),
        data.len() <= iov_total(iovs),
        written == min_nat(data.len(), iov_total(iovs.subrange(0, k))),
        pieces(mem, iovs.subrange(0, k)).subrange(0, written as int) == data.subrange(0, written as int),
    ensures
        pieces(scatter_from(mem, iovs, data, k, written).0, iovs).subrange(0, data.len() as int) == data,
    decreases iovs.len() - k,
{
    let n = iovs.len() as int;
    assert(iovs.subrange(0, n) =~= iovs);
    lemma_iov_total_prefix(iovs, k);
    let sk = iovs.subrange(0, k);
    assert forall|m: int| 0 <= m < sk.len() implies range_ok(mem.len(), #[trigger] sk[m].0 as int, sk[m].1 as int) by {
        assert(sk[m] == iovs[m]);
    }
    lemma_pieces_len(mem, sk);
    if k < n && written < data.len() {
        let s = iovs.subrange(0, k + 1);
        assert(s.drop_last() =~= sk);
        assert(s.last() == iovs[k]);
        assert(iov_total(s) == iov_total(sk) + iovs[k].1);
        let a = iovs[k].0 as int;
        let l = iovs[k].1 as int;
        let take = min_nat(iovs[k].1 as nat, (data.len() - written) as nat) as int;
        assert(range_ok(mem.len(), a, l));
        let chunk = data.subrange(written as int, written + take);
        let mem2 = write_at(mem, a, chunk);
        assert(forall|m: int| 0 <= m < sk.len() ==> #[trigger] sk[m].0 + sk[m].1 <= a) by {
            assert forall|m: int| 0 <= m < sk.len() implies #[trigger] sk[m].0 + sk[m].1 <= a by {
                assert(sk[m] == iovs[m]);
                assert(iovs[m].0 + iovs[m].1 <= iovs[k].0);
            }
        }
        lemma_write_keeps_pieces(mem, sk, a, chunk);
        let old_p = pieces(mem, sk);
        let new_p = pieces(mem2, s);
        assert(new_p == pieces(mem2, sk) + mem2.subrange(a, a + l));
        assert(mem2.subrange(a, a + take) =~= chunk);
        let w2 = (written + take) as nat;
        assert(old_p.len() == written);
        assert(new_p.subrange(0, w2 as int) =~= old_p + chunk);
        assert(old_p =~= old_p.subrange(0, written as int));
        assert(data.subrange(0, w2 as int) =~= data.subrange(0, written as int) + chunk);
        assert(mem2.len() == mem.len());
        lemma_scatter_content(mem2, iovs, data, k + 1, w2);
    } else {
        // Nothing more is written: the first k pieces already hold all the data.
        assert(written == data.len());
        lemma_pieces_prefix(mem, iovs, k, n);
        let pk = pieces(mem, sk);
        let pn = pieces(mem, iovs);
        assert(pn.subrange(0, data.len() as int) =~= pn.subrange(0, pk.len() as int).subrange(0, data.len() as int));
        assert(data.subrange(0, data.len() as int) =~= data);
    }
}

/// Scattering data through destination pieces that are all mapped and laid
/// out in ascending, non-overlapping order, with room for all of it, leaves
/// the data in the pieces one after another in list order.
pub proof fn law_scatter_fills_pieces(mem: Seq<u8>, iovs: Seq<(usize, usize)>, data: Seq<u8>)
    requires
        all_mapped(mem.len(), iovs),
        ascending(iovs),
        data.len() <= iov_total(iovs),
    ensures
        pieces(scatter_from(mem, iovs, data, 0, 0).0, iovs).subrange(0, data.len() as int) == data,
        scatter_from(mem, iovs, data, 0, 0).1 == data.len(),
{
    assert(iovs.subrange(0, 0) =~= Seq::<(usize, usize)>::empty());
    assert(pieces(mem, iovs.subrange(0, 0)).subrange(0, 0) =~= data.subrange(0, 0));
    lemma_scatter_content(mem, iovs, data, 0, 0);
    lemma_scatter_count(mem, iovs, data, 0, 0);
}

/// A copy between processes from mapped source pieces into mapped,
/// ascending, non-overlapping destination pieces with at least as much room
/// delivers the source pieces' bytes, in list order, to the start of the
/// destination pieces, and reports their number.
pub proof fn law_copy_delivers(src: Seq<u8>, src_iovs: Seq<(usize, usize)>, dst: Seq<u8>, dst_iovs: Seq<(usize, usize)>)
    requires
        all_mapped(src.len(), src_iovs),
        all_mapped(dst.len(), dst_iovs),
        ascending(dst_iovs),
        iov_total(src_iovs) <= iov_total(dst_iovs),
    ensures
        pieces(vm_copy(src, src_iovs, dst, dst_iovs).0, dst_iovs).subrange(0, iov_total(src_iovs) as int)
            == pieces(src, src_iovs),
        vm_copy(src, src_iovs, dst, dst_iovs).1 == iov_total(src_iovs),
{
    let len = iov_total(src_iovs);
    lemma_pieces_len(src, src_iovs);
    law_gather_concatenates(src, src_iovs, len);
    if len > 0 {
        law_scatter_fills_pieces(dst, dst_iovs, pieces(src, src_iovs));
    } else {
        assert(pieces(dst, dst_iovs).subrange(0, 0) =~= pieces(src, src_iovs));
    }
}

} // verus!
