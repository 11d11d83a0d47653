//! A process's user memory as the system calls see it, and the scatter-gather
//! lists (`iovec`) that name pieces of it.
use vstd::prelude::*;
use crate::errno::EFAULT;

verus! {

/// Bytes of one `iovec` (base and length, 8 bytes each).
pub const IOVEC_SIZE: usize = 16;

/// User memory: addresses `0..mem.len()` are mapped.
pub struct UserSpace {
    pub mem: Vec<u8>,
}

/// `len` bytes from `addr` are mapped in memory of `size` bytes.
pub open spec fn range_ok(size: nat, addr: int, len: int) -> bool {
    addr + len <= size
}

/// The little-endian value of a byte sequence.
pub open spec fn le_value(s: Seq<u8>) -> nat
    decreases s.len(),
{
    if s.len() == 0 {
        0
    } else {
        s[0] as nat + 256 * le_value(s.drop_first())
    }
}

/// 256 to the power `k`.
pub open spec fn pow256(k: nat) -> nat
    decreases k,
{
    if k == 0 {
        1
    } else {
        256 * pow256((k - 1) as nat)
    }
}

proof fn lemma_le_value_bound(s: Seq<u8>)
    ensures
        le_value(s) < pow256(s.len()),
    decreases s.len(),
{
    if s.len() > 0 {
        lemma_le_value_bound(s.drop_first());
        let v = le_value(s.drop_first());
        let p = pow256((s.len() - 1) as nat);
        let b = s[0] as nat;
        assert(b + 256 * v < 256 * p) by (nonlinear_arith)
            requires
                v < p,
                b < 256,
        ;
    }
}

/// The pieces an iovec array names: base and length of each, in order.
pub open spec fn iovecs_of(bytes: Seq<u8>, count: nat) -> Seq<(usize, usize)> {
    Seq::new(
        count,
        |k: int|
            (
                le_value(bytes.subrange(16 * k, 16 * k + 8)) as usize,
                le_value(bytes.subrange(16 * k + 8, 16 * k + 16)) as usize,
            ),
    )
}

/// The list `read_iovecs` gives for `cnt` iovecs at `ptr`: empty for a count
/// of 0, nothing when the array is not mapped.
pub open spec fn list_read(mem: Seq<u8>, ptr: usize, cnt: usize) -> Option<Seq<(usize, usize)>> {
    if cnt == 0 {
        Some(Seq::empty())
    } else if !range_ok(mem.len(), ptr as int, IOVEC_SIZE * cnt) {
        None
    } else {
        Some(iovecs_of(mem.subrange(ptr as int, ptr + IOVEC_SIZE * cnt), cnt as nat))
    }
}

/// The sum of the lengths.
pub open spec fn iov_total(iovs: Seq<(usize, usize)>) -> nat
    decreases iovs.len(),
{
    if iovs.len() == 0 {
        0
    } else {
        iov_total(iovs.drop_last()) + iovs.last().1 as nat
    }
}

/// The little-endian 64-bit word at `addr` of `bytes`.
pub fn read_le_u64(bytes: &Vec<u8>, addr: usize) -> (v: u64)
    requires
        addr + 8 <= bytes@.len(),
    ensures
        v as nat == le_value(bytes@.subrange(addr as int, addr + 8)),
{
    let ghost s = bytes@.subrange(addr as int, addr + 8);
    let mut v: u64 = 0;
    let mut k: usize = 8;
    while k > 0
        invariant
            k <= 8,
            addr + 8 <= bytes.len(),
            s == bytes@.subrange(addr as int, addr + 8),
            v as nat == le_value(s.subrange(k as int, 8)),
            v < pow256((8 - k) as nat),
        decreases k,
    {
        k = k - 1;
        let b = bytes[addr + k];
        proof {
            assert(s.subrange(k as int, 8).drop_first() =~= s.subrange(k + 1, 8));
            assert(s.subrange(k as int, 8)[0] == b);
            lemma_le_value_bound(s.subrange(k as int, 8));
            reveal_with_fuel(pow256, 9);
        }
        v = (b as u64) + 256 * v;
    }
    assert(s.subrange(0, 8) =~= s);
    v
}

impl UserSpace {
    /// The little-endian 64-bit word at `addr`, which must be mapped, as a
    /// machine word.
    pub fn read_word(&self, addr: usize) -> (v: usize)
        requires
            addr + 8 <= self.mem@.len(),
        ensures
            v == le_value(self.mem@.subrange(addr as int, addr + 8)) as usize,
    {
        read_le_u64(&self.mem, addr) as usize
    }

    /// The `len` bytes from `addr`, which must be mapped.
    pub fn read_bytes(&self, addr: usize, len: usize) -> (v: Vec<u8>)
        requires
            addr + len <= self.mem@.len(),
        ensures
            v@ == self.mem@.subrange(addr as int, addr + len),
    {
        let mut v: Vec<u8> = Vec::new();
        let mut k: usize = 0;
        while k < len
            invariant
                k <= len,
                addr + len <= self.mem.len(),
                v@ == self.mem@.subrange(addr as int, addr + k),
            decreases len - k,
        {
            v.push(self.mem[addr + k]);
            k = k + 1;
            assert(v@ =~= self.mem@.subrange(addr as int, addr + k));
        }
        v
    }

    /// Reads `iovcnt` iovecs from `iov_ptr`: none for a count of 0, EFAULT
    /// when the array is not mapped.
    pub fn read_iovecs(&self, iov_ptr: usize, iovcnt: usize) -> (r: Result<Vec<(usize, usize)>, isize>)
        requires
            IOVEC_SIZE * iovcnt <= usize::MAX,
        ensures
            match list_read(self.mem@, iov_ptr, iovcnt) {
                Some(l) => r matches Ok(v) && v@ == l,
                None => r == Err::<Vec<(usize, usize)>, isize>(EFAULT),
            },
            iovcnt == 0 ==> (r matches Ok(v) && v@.len() == 0),
            iovcnt > 0 && !range_ok(self.mem@.len(), iov_ptr as int, IOVEC_SIZE * iovcnt) ==> r
                == Err::<Vec<(usize, usize)>, isize>(EFAULT),
            iovcnt > 0 && range_ok(self.mem@.len(), iov_ptr as int, IOVEC_SIZE * iovcnt) ==> (r matches Ok(
                v,
            ) && v@ == iovecs_of(self.mem@.subrange(iov_ptr as int, iov_ptr + IOVEC_SIZE * iovcnt), iovcnt as nat)),
    {
        let mut v: Vec<(usize, usize)> = Vec::new();
        if iovcnt == 0 {
            assert(v@ =~= Seq::<(usize, usize)>::empty());
            return Ok(v);
        }
        let size = IOVEC_SIZE * iovcnt;
        if iov_ptr > self.mem.len() || size > self.mem.len() - iov_ptr {
            return Err(EFAULT);
        }
        let ghost bytes = self.mem@.subrange(iov_ptr as int, iov_ptr + size);
        let mut k: usize = 0;
        while k < iovcnt
            invariant
                k <= iovcnt,
                size == IOVEC_SIZE * iovcnt,
                iov_ptr + size <= self.mem.len(),
                bytes == self.mem@.subrange(iov_ptr as int, iov_ptr + size),
                v@ == iovecs_of(bytes, iovcnt as nat).subrange(0, k as int),
            decreases iovcnt - k,
        {
            let base = self.read_word(iov_ptr + 16 * k);
            let len = self.read_word(iov_ptr + 16 * k + 8);
            proof {
                assert(bytes.subrange(16 * k as int, 16 * k + 8) =~= self.mem@.subrange(
                    iov_ptr + 16 * k,
                    iov_ptr + 16 * k + 8,
                ));
                assert(bytes.subrange(16 * k + 8, 16 * k + 16) =~= self.mem@.subrange(
                    iov_ptr + 16 * k + 8,
                    iov_ptr + 16 * k + 16,
                ));
            }
            v.push((base, len));
            k = k + 1;
            assert(v@ =~= iovecs_of(bytes, iovcnt as nat).subrange(0, k as int));
        }
        assert(iovecs_of(bytes, iovcnt as nat).subrange(0, iovcnt as int) =~= iovecs_of(bytes, iovcnt as nat));
        Ok(v)
    }
}

/// The sum of the iovec lengths (`iovec_total_len`); it must fit in a word.
pub fn iovec_total_len(iovs: &Vec<(usize, usize)>) -> (n: usize)
    requires
        iov_total(iovs@) <= usize::MAX,
    ensures
        n == iov_total(iovs@),
{
    let mut n: usize = 0;
    let mut i: usize = 0;
    while i < iovs.len()
        invariant
            i <= iovs.len(),
            iov_total(iovs@) <= usize::MAX,
            n == iov_total(iovs@.subrange(0, i as int)),
        decreases iovs.len() - i,
    {
        proof {
            assert(iovs@.subrange(0, i + 1).drop_last() =~= iovs@.subrange(0, i as int));
            lemma_iov_total_prefix(iovs@, i + 1);
        }
        n = n + iovs[i].1;
        i = i + 1;
    }
    assert(iovs@.subrange(0, i as int) =~= iovs@);
    n
}

/// A prefix's total is at most the whole total.
pub proof fn lemma_iov_total_prefix(iovs: Seq<(usize, usize)>, k: int)
    requires
        0 <= k <= iovs.len(),
    ensures
        iov_total(iovs.subrange(0, k)) <= iov_total(iovs),
    decreases iovs.len() - k,
{
    if k < iovs.len() {
        lemma_iov_total_prefix(iovs, k + 1);
        assert(iovs.subrange(0, k + 1).drop_last() =~= iovs.subrange(0, k));
    } else {
        assert(iovs.subrange(0, k) =~= iovs);
    }
}

} // verus!
