//! The kernel's pseudo-random generator (SplitMix64).
use vstd::prelude::*;

verus! {

/// The error type of `rand_core`'s fallible fill.
#[verifier::external_type_specification]
#[verifier::external_body]
pub struct ExRandCoreError(rand_core::Error);

/// The increment added to the state on every step.
pub const GAMMA: u64 = 0x9e3779b97f4a7c15;
/// The two multipliers of the output mix.
pub const MIX1: u64 = 0xbf58476d1ce4e5b9;
pub const MIX2: u64 = 0x94d049bb133111eb;

/// Product modulo 2^64.
pub open spec fn mul_wrap(x: u64, y: u64) -> u64 {
    ((x as nat * y as nat) % 0x1_0000_0000_0000_0000nat) as u64
}

/// The state after one step.
pub open spec fn next_state(s: u64) -> u64 {
    ((s as nat + GAMMA as nat) % 0x1_0000_0000_0000_0000nat) as u64
}

/// The output drawn from a state that has just been stepped.
pub open spec fn mix(state: u64) -> u64 {
    let z1 = mul_wrap(state ^ (state >> 30u64), MIX1);
    let z2 = mul_wrap(z1 ^ (z1 >> 27u64), MIX2);
    z2 ^ (z2 >> 31u64)
}

/// The state after `k` steps.
pub open spec fn state_after(s: u64, k: nat) -> u64
    decreases k,
{
    if k == 0 {
        s
    } else {
        next_state(state_after(s, (k - 1) as nat))
    }
}

/// The `k`-th output (from 1) of a generator in state `s`.
pub open spec fn output(s: u64, k: nat) -> u64 {
    mix(state_after(s, k))
}

/// Byte `k` (0..8) of `v` in little-endian order.
pub open spec fn le_byte(v: u64, k: nat) -> u8 {
    ((v >> ((8 * k) as u64)) & 0xff) as u8
}

/// The bytes `fill_bytes` writes from state `s`: output `j / 8 + 1` supplies
/// bytes `j` by little-endian position `j % 8`.
pub open spec fn fill_byte(s: u64, j: nat) -> u8 {
    le_byte(output(s, j / 8 + 1), j % 8)
}

/// Number of 8-byte chunks of `n` bytes, the last possibly short.
pub open spec fn chunks_of(n: nat) -> nat {
    (n + 7) / 8
}

/// A SplitMix64 generator.
pub struct Rng {
    pub state: u64,
}

impl Rng {
    /// Steps the state and returns the mixed new state.
    pub fn next_u64(&mut self) -> (r: u64)
        ensures
            final(self).state == next_state(old(self).state),
            r == mix(final(self).state),
    {
        self.state = self.state.wrapping_add(GAMMA);
        let mut z = self.state;
        z = (z ^ (z >> 30u64)).wrapping_mul(MIX1);
        z = (z ^ (z >> 27u64)).wrapping_mul(MIX2);
        z ^ (z >> 31u64)
    }

    /// The low 32 bits of the next 64-bit output.
    pub fn next_u32(&mut self) -> (r: u32)
        ensures
            final(self).state == next_state(old(self).state),
            r == mix(final(self).state) as u32,
    {
        self.next_u64() as u32
    }

    /// The high 31 bits of the next output: never above `i32::MAX`.
    pub fn positive_u32(&mut self) -> (r: u32)
        ensures
            final(self).state == next_state(old(self).state),
            r == (mix(final(self).state) >> 33u64) as u32,
            r <= 0x7fff_ffff,
    {
        let v = self.next_u64();
        assert((v >> 33u64) <= 0x7fff_ffffu64) by (bit_vector);
        (v >> 33u64) as u32
    }

    /// Fills `dest` with successive outputs in little-endian byte order, eight
    /// bytes per output; a short last chunk takes the low bytes of its output.
    pub fn fill_bytes(&mut self, dest: &mut [u8])
        ensures
            final(dest)@.len() == old(dest)@.len(),
            forall|j: int|
                0 <= j < old(dest)@.len() ==> #[trigger] final(dest)@[j] == fill_byte(
                    old(self).state,
                    j as nat,
                ),
            final(self).state == state_after(old(self).state, chunks_of(old(dest)@.len() as nat)),
    {
        let ghost s0 = self.state;
        let len = dest.len();
        let mut pos: usize = 0;
        let ghost mut k: nat = 0;
        while pos < len
            invariant
                len == dest@.len(),
                dest@.len() == old(dest)@.len(),
                pos <= len,
                pos == 8 * k || pos == len,
                pos < len ==> pos == 8 * k,
                self.state == state_after(s0, k),
                k == chunks_of(pos as nat),
                forall|j: int| 0 <= j < pos ==> #[trigger] dest@[j] == fill_byte(s0, j as nat),
            decreases len - pos,
        {
            let val = self.next_u64();
            proof {
                k = k + 1;
            }
            let mut b: usize = 0;
            while b < 8 && pos + b < len
                invariant
                    len == dest@.len(),
                    dest@.len() == old(dest)@.len(),
                    pos == 8 * (k - 1),
                    pos < len,
                    b <= 8,
                    pos + b <= len,
                    val == output(s0, k),
                    forall|j: int| 0 <= j < pos + b ==> #[trigger] dest@[j] == fill_byte(s0, j as nat),
                decreases 8 - b,
            {
                let byte = ((val >> ((8 * b) as u64)) & 0xff) as u8;
                dest[pos + b] = byte;
                proof {
                    let j = (pos + b) as nat;
                    assert(j / 8 == k - 1 && j % 8 == b) by {
                        vstd::arithmetic::div_mod::lemma_fundamental_div_mod(j as int, 8);
                    }
                }
                b = b + 1;
            }
            pos = pos + b;
        }
        assert(k == chunks_of(len as nat));
    }

    /// Fills `dest` as `fill_bytes` does; it never fails.
    pub fn try_fill_bytes(&mut self, dest: &mut [u8]) -> (r: Result<(), rand_core::Error>)
        ensures
            r is Ok,
            final(dest)@.len() == old(dest)@.len(),
            forall|j: int|
                0 <= j < old(dest)@.len() ==> #[trigger] final(dest)@[j] == fill_byte(
                    old(self).state,
                    j as nat,
                ),
            final(self).state == state_after(old(self).state, chunks_of(old(dest)@.len() as nat)),
    {
        self.fill_bytes(dest);
        Ok(())
    }
}

/// The generator's state at boot.
pub const RNG_SEED: u64 = 0x9e3779b97f4a7c15;

/// A generator in its boot state.
pub fn new_rng() -> (r: Rng)
    ensures
        r.state == RNG_SEED,
{
    Rng { state: RNG_SEED }
}

/// Mixes the time into the state: adds the nanoseconds since boot, modulo
/// 2^64.
pub fn init_rng(rng: &mut Rng, time_ns: usize)
    ensures
        final(rng).state == ((old(rng).state as nat + time_ns as nat) % 0x1_0000_0000_0000_0000nat) as u64,
{
    let t: u64 = time_ns as u64;
    rng.state = rng.state.wrapping_add(t);
}

} // verus!
