//! Decimal formatting of unsigned integers, right-aligned in a field.
use vstd::prelude::*;

verus! {

/// The ASCII decimal digits of `n`, most significant first, without leading
/// zeros (0 is "0").
pub open spec fn dec_digits(n: nat) -> Seq<u8>
    decreases n,
{
    if n < 10 {
        seq![(48 + n) as u8]
    } else {
        dec_digits(n / 10).push((48 + n % 10) as u8)
    }
}

/// `s` preceded by spaces up to `width` bytes; longer text is left whole.
pub open spec fn right_align(s: Seq<u8>, width: nat) -> Seq<u8> {
    if s.len() >= width {
        s
    } else {
        Seq::new((width - s.len()) as nat, |_i: int| 32u8) + s
    }
}

/// The number of decimal digits of `n`.
pub fn dec_len(n: u64) -> (l: usize)
    ensures
        l == dec_digits(n as nat).len(),
        1 <= l <= 20,
    decreases n,
{
    if n < 10 {
        1
    } else {
        let l = dec_len(n / 10);
        proof {
            if n / 10 < 10 {
            } else {
                assert(n / 10 < 0x1999_9999_9999_999a);
            }
        }
        assert(l < 20) by {
            lemma_dec_len_bound((n / 10) as nat);
        }
        l + 1
    }
}

/// Numbers below 10^k have at most k digits.
proof fn lemma_dec_len_bound(n: nat)
    requires
        n < 0x1999_9999_9999_999a,
    ensures
        dec_digits(n).len() < 20,
    decreases n,
{
    if n >= 10 {
        reveal_with_fuel(pow10, 20);
        assert(pow10(19) == 10_000_000_000_000_000_000nat);
        lemma_dec_len_bound_k(n, 19);
    }
}

proof fn lemma_dec_len_bound_k(n: nat, k: nat)
    requires
        k >= 1,
        n < pow10(k),
    ensures
        dec_digits(n).len() <= k,
    decreases n,
{
    if n >= 10 {
        assert(k >= 2) by {
            if k == 1 {
                assert(pow10(1) == 10 * pow10(0));
            }
        }
        assert(n / 10 < pow10((k - 1) as nat)) by {
            assert(pow10(k) == 10 * pow10((k - 1) as nat));
        }
        lemma_dec_len_bound_k(n / 10, (k - 1) as nat);
    }
}

/// 10 to the power `k`.
pub open spec fn pow10(k: nat) -> nat
    decreases k,
{
    if k == 0 {
        1
    } else {
        10 * pow10((k - 1) as nat)
    }
}

/// Appends the decimal digits of `n`.
pub fn push_dec(buf: &mut Vec<u8>, n: u64)
    ensures
        final(buf)@ == old(buf)@ + dec_digits(n as nat),
    decreases n,
{
    if n >= 10 {
        push_dec(buf, n / 10);
    }
    buf.push((48 + n % 10) as u8);
    proof {
        if n < 10 {
            assert(dec_digits(n as nat) =~= seq![(48 + n) as u8]);
        }
    }
}

/// Appends the decimal digits of `n`, right-aligned in `width` bytes.
pub fn push_right_aligned(buf: &mut Vec<u8>, n: u64, width: usize)
    ensures
        final(buf)@ == old(buf)@ + right_align(dec_digits(n as nat), width as nat),
{
    let l = dec_len(n);
    let ghost start = buf@;
    if l < width {
        let pad = width - l;
        let mut i: usize = 0;
        while i < pad
            invariant
                i <= pad,
                buf@ == start + Seq::new(i as nat, |_j: int| 32u8),
            decreases pad - i,
        {
            buf.push(32u8);
            i = i + 1;
            proof {
                assert(buf@ =~= start + Seq::new(i as nat, |_j: int| 32u8));
            }
        }
    }
    let ghost mid = buf@;
    push_dec(buf, n);
    assert(buf@ =~= start + right_align(dec_digits(n as nat), width as nat));
}

/// The number a string of ASCII decimal digits spells, most significant first.
pub open spec fn dec_value(s: Seq<u8>) -> int
    decreases s.len(),
{
    if s.len() == 0 {
        0
    } else {
        dec_value(s.drop_last()) * 10 + (s.last() - 48)
    }
}

/// The decimal digits of `n` are ASCII digits that spell `n`, without a
/// leading zero unless `n` is 0.
pub proof fn law_dec_digits_spell(n: nat)
    ensures
        dec_value(dec_digits(n)) == n,
        dec_digits(n).len() >= 1,
        forall|i: int| 0 <= i < dec_digits(n).len() ==> 48 <= #[trigger] dec_digits(n)[i] <= 57,
        n > 0 ==> dec_digits(n)[0] != 48,
    decreases n,
{
    if n >= 10 {
        law_dec_digits_spell(n / 10);
        let d = dec_digits(n);
        assert(d.drop_last() =~= dec_digits(n / 10));
        assert(d.last() == (48 + n % 10) as u8);
        assert(((48 + n % 10) as u8) as int == 48 + n % 10);
        assert(n == (n / 10) * 10 + n % 10);
        assert(dec_value(d) == dec_value(dec_digits(n / 10)) * 10 + (d.last() - 48));
        assert(d[0] == dec_digits(n / 10)[0]);
    } else {
        let d = dec_digits(n);
        assert(d.drop_last() =~= Seq::<u8>::empty());
        assert(((48 + n) as u8) as int == 48 + n);
        assert(dec_value(d) == dec_value(d.drop_last()) * 10 + (d.last() - 48));
    }
}

/// Right-aligning keeps the text at the end, fills what is left of the
/// field with spaces, and is never shorter than the field.
pub proof fn law_right_align(s: Seq<u8>, width: nat)
    ensures
        right_align(s, width).len() == if s.len() >= width {
            s.len()
        } else {
            width
        },
        right_align(s, width).subrange(right_align(s, width).len() - s.len(), right_align(s, width).len() as int)
            == s,
        forall|i: int| 0 <= i < right_align(s, width).len() - s.len() ==> #[trigger] right_align(s, width)[i] == 32u8,
{
    let r = right_align(s, width);
    assert(r.subrange(r.len() - s.len(), r.len() as int) =~= s);
}

} // verus!
