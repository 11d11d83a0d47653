//! The kernel heap's fallback for large requests: what the buddy heap cannot
//! serve is served, from one frame up, by contiguous whole frames, recorded
//! by the address they start at so that freeing finds them again.
use vstd::prelude::*;
use std::collections::BTreeMap;

verus! {

broadcast use vstd::std_specs::btree::group_btree_axioms;

/// Bytes of a frame.
pub const FRAME_SIZE: usize = 0x1000;

/// How many whole frames serve a request of `size` bytes that the buddy heap
/// could not serve: none below one frame (the request then fails), else
/// enough to hold it.
pub fn fallback_frames(size: usize) -> (n: Option<usize>)
    requires
        size <= isize::MAX,
    ensures
        size < FRAME_SIZE ==> n is None,
        size >= FRAME_SIZE ==> n == Some(((size + FRAME_SIZE - 1) / (FRAME_SIZE as int)) as usize),
{
    if size >= FRAME_SIZE {
        Some((size + FRAME_SIZE - 1) / FRAME_SIZE)
    } else {
        None
    }
}

/// The allocations served by frames: each start address with the numbers of
/// the frames behind it.
pub struct LargeAllocs {
    pub blocks: BTreeMap<usize, Vec<usize>>,
}

impl View for LargeAllocs {
    type V = Map<usize, Vec<usize>>;

    open spec fn view(&self) -> Map<usize, Vec<usize>> {
        self.blocks@
    }
}

impl LargeAllocs {
    /// No allocation served by frames.
    pub fn new() -> (t: Self)
        ensures
            t@ == Map::<usize, Vec<usize>>::empty(),
    {
        LargeAllocs { blocks: BTreeMap::new() }
    }

    /// Records the frames handed out for an allocation and returns its
    /// address, that of the first frame.
    pub fn record(&mut self, frames: Vec<usize>) -> (addr: usize)
        requires
            frames@.len() > 0,
            frames@[0] * FRAME_SIZE <= usize::MAX,
        ensures
            addr == frames@[0] * FRAME_SIZE,
            final(self)@ == old(self)@.insert(addr, frames),
    {
        let addr = frames[0] * FRAME_SIZE;
        self.blocks.insert(addr, frames);
        addr
    }

    /// Takes out the frames behind `addr` when it is an allocation served by
    /// frames, which are then given back; for any other address nothing, and
    /// the buddy heap frees it.
    pub fn take(&mut self, addr: usize) -> (r: Option<Vec<usize>>)
        ensures
            final(self)@ == old(self)@.remove(addr),
            match r {
                Some(f) => old(self)@.contains_key(addr) && old(self)@[addr] == f,
                None => !old(self)@.contains_key(addr),
            },
    {
        self.blocks.remove(&addr)
    }
}

/// Freeing an allocation served by frames gives back exactly the frames it
/// was served by, and leaves the record of the others as it was before.
pub proof fn law_record_then_take(before: Map<usize, Vec<usize>>, addr: usize, frames: Vec<usize>)
    requires
        !before.contains_key(addr),
    ensures
        before.insert(addr, frames).contains_key(addr),
        before.insert(addr, frames)[addr] == frames,
        before.insert(addr, frames).remove(addr) == before,
{
    assert(before.insert(addr, frames).remove(addr) =~= before);
}

} // verus!
