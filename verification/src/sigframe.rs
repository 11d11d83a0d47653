//! Returning from a signal handler: the signal frame laid on the user stack
//! when the handler was entered gives back the blocked signals and the
//! registers of the interrupted code.
use vstd::prelude::*;
use crate::process::same_config;
use crate::signal::Signals;
use crate::task::{Task, TaskManager};
use crate::uspace::{UserSpace, le_value, read_le_u64};

verus! {

/// Bytes of the two words (flags and link) that open a `ucontext`.
pub const UCONTEXT_HEAD: usize = 16;

/// Sizes and offsets of the kernel types that shape a signal frame on the
/// target.
#[derive(Clone, Copy, Debug, PartialEq, Eq)]
pub struct SigFrameLayout {
    /// Bytes of the `siginfo` the frame starts with.
    pub siginfo_size: usize,
    /// Bytes of the signal stack description inside the `ucontext`.
    pub sigstack_size: usize,
    /// Bytes between the saved signal mask and the machine context.
    pub padding: usize,
    /// Offset of the stack pointer in the machine context.
    pub sp_at: usize,
    /// Offset of the first argument (and return value) register in the
    /// machine context.
    pub a0_at: usize,
}

/// The registers saved on entry to the kernel; the machine context is their
/// image, byte for byte.
pub struct TrapContext {
    pub mcontext: Vec<u8>,
}

/// The little-endian 64-bit word at `at`.
pub open spec fn word_at(bytes: Seq<u8>, at: int) -> nat {
    le_value(bytes.subrange(at, at + 8))
}

/// Where the `ucontext` starts: past the `siginfo` above the stack pointer,
/// rounded up to 8 bytes.
pub open spec fn ucontext_at(sp: usize, l: SigFrameLayout) -> usize {
    ((sp + l.siginfo_size + 7) as usize) & !7usize
}

/// Where the saved signal mask lies in the frame at `u`.
pub open spec fn sigmask_at(u: usize, l: SigFrameLayout) -> int {
    u + UCONTEXT_HEAD + l.sigstack_size
}

/// Where the saved machine context lies in the frame at `u`.
pub open spec fn mcontext_at(u: usize, l: SigFrameLayout) -> int {
    sigmask_at(u, l) + 8 + l.padding
}

/// The stack pointer saved in a machine context.
pub open spec fn saved_sp(mc: Seq<u8>, l: SigFrameLayout) -> usize {
    word_at(mc, l.sp_at as int) as usize
}

/// The frame that the stack pointer of `mc` points at lies in mapped memory
/// of `mem_len` bytes, with room for a machine context as long as `mc`.
pub open spec fn frame_mapped(mem_len: nat, mc: Seq<u8>, l: SigFrameLayout) -> bool {
    let sp = saved_sp(mc, l);
    &&& sp + l.siginfo_size + 7 <= usize::MAX
    &&& mcontext_at(ucontext_at(sp, l), l) + mc.len() <= mem_len
}

/// Returns from a signal handler: the signal mask saved in the frame above
/// the stack pointer becomes the caller's, the saved machine context
/// replaces the registers, and the result is the restored first argument
/// register, so that the interrupted code sees its own value there.
pub fn sys_sigreturn(tm: &mut TaskManager, space: &UserSpace, trap: &mut TrapContext, l: SigFrameLayout) -> (r: isize)
    requires
        old(tm).wf(),
        l.sp_at + 8 <= old(trap).mcontext@.len(),
        l.a0_at + 8 <= old(trap).mcontext@.len(),
        frame_mapped(space.mem@.len(), old(trap).mcontext@, l),
    ensures
        ({
            let u = ucontext_at(saved_sp(old(trap).mcontext@, l), l);
            let m = mcontext_at(u, l);
            &&& same_config(final(tm), old(tm))
            &&& final(tm).tasks@ == old(tm).tasks@.update(
                old(tm).current as int,
                Task { sigmask: Signals { bits: word_at(space.mem@, sigmask_at(u, l)) as u64 }, ..old(tm).cur() },
            )
            &&& final(trap).mcontext@ == space.mem@.subrange(m, m + old(trap).mcontext@.len())
            &&& r == word_at(final(trap).mcontext@, l.a0_at as int) as isize
        }),
{
    let sp_word = read_le_u64(&trap.mcontext, l.sp_at);
    let sp = sp_word as usize;
    assert(sp == saved_sp(old(trap).mcontext@, l));
    let u = (sp + l.siginfo_size + 7) & !7usize;
    assert(u == ucontext_at(sp, l));
    let mem_len = space.mem.len();
    assert(u + UCONTEXT_HEAD + l.sigstack_size + 8 + l.padding + trap.mcontext@.len() <= mem_len);
    let mask_at = u + UCONTEXT_HEAD + l.sigstack_size;
    let mask = read_le_u64(&space.mem, mask_at);
    let mc = space.read_bytes(mask_at + 8 + l.padding, trap.mcontext.len());
    trap.mcontext = mc;
    let mut t = tm.tasks[tm.current];
    t.sigmask = Signals { bits: mask };
    tm.tasks.set(tm.current, t);
    read_le_u64(&trap.mcontext, l.a0_at) as isize
}

} // verus!
