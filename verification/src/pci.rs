//! The PCI memory window: a bump allocator that hands out naturally aligned
//! ranges for device BARs.
use vstd::prelude::*;

verus! {

/// `x` is a power of two.
pub open spec fn pow2(x: usize) -> bool {
    x != 0 && x & ((x - 1) as usize) == 0
}

/// `addr` rounded up to a multiple of the power of two `align`.
pub open spec fn align_up_spec(addr: usize, align: usize) -> usize {
    ((addr + align - 1) as usize) & !((align - 1) as usize)
}

/// Whether `x` is a power of two.
pub fn is_power_of_two(x: usize) -> (b: bool)
    ensures
        b == pow2(x),
{
    x != 0 && x & (x - 1) == 0
}

/// Rounds `addr` up to a multiple of `align`, a power of two.
pub fn align_up(addr: usize, align: usize) -> (r: usize)
    requires
        pow2(align),
        addr + align - 1 <= usize::MAX,
    ensures
        r == align_up_spec(addr, align),
        addr <= r,
        r & ((align - 1) as usize) == 0,
        r - addr < align,
{
    let m: usize = align - 1;
    let t: usize = addr + m;
    let r = t & !m;
    assert(r & m == 0 && addr <= r && r - addr <= m) by (bit_vector)
        requires
            align != 0,
            align & m == 0,
            m == align - 1,
            t == addr + m,
            r == t & !m,
    ;
    r
}

/// The unallocated part of the PCI memory window: from `current` to `end`.
pub struct PciRangeAllocator {
    pub end: usize,
    pub current: usize,
}

/// The block `alloc_pci_mem` would hand out, before the low four bits are
/// cleared: `current` aligned up to `size`.
pub open spec fn next_block(a: PciRangeAllocator, size: usize) -> usize {
    align_up_spec(a.current, size)
}

/// What `alloc_pci_mem(size)` gives and leaves: nothing and the window
/// unchanged when `size` is not a power of two or the block would pass the
/// end; else the block with its low four bits cleared, and the window after
/// the block.
pub open spec fn alloc_spec(a: PciRangeAllocator, size: usize) -> (Option<usize>, PciRangeAllocator) {
    let b = next_block(a, size);
    if !pow2(size) || b + size > a.end {
        (None, a)
    } else {
        (Some((b & !0xfusize) as usize), PciRangeAllocator { end: a.end, current: (b + size) as usize })
    }
}

/// `alloc_pci_mem(size)` does not overflow: a power-of-two size can be
/// aligned to and added from the current position.
pub open spec fn alloc_fits(a: PciRangeAllocator, size: usize) -> bool {
    pow2(size) ==> a.current + size - 1 <= usize::MAX && align_up_spec(a.current, size) + size <= usize::MAX
}

impl PciRangeAllocator {
    /// The window `[pci_base, pci_base + pci_size)`.
    pub fn new(pci_base: usize, pci_size: usize) -> (a: PciRangeAllocator)
        requires
            pci_base + pci_size <= usize::MAX,
        ensures
            a.current == pci_base,
            a.end == pci_base + pci_size,
    {
        PciRangeAllocator { current: pci_base, end: pci_base + pci_size }
    }

    /// Hands out `size` bytes aligned to `size`: nothing when `size` is not a
    /// power of two or the aligned block would pass the end; otherwise the
    /// block's start with its low four bits cleared, and the window then
    /// starts after the block.
    pub fn alloc_pci_mem(&mut self, size: usize) -> (r: Option<usize>)
        requires
            alloc_fits(*old(self), size),
        ensures
            (r, *final(self)) == alloc_spec(*old(self), size),
            !pow2(size) ==> r is None && *final(self) == *old(self),
            pow2(size) && next_block(*old(self), size) + size > old(self).end ==> r is None && *final(self)
                == *old(self),
            pow2(size) && next_block(*old(self), size) + size <= old(self).end ==> ({
                let b = next_block(*old(self), size);
                &&& r == Some((b & !0xfusize) as usize)
                &&& final(self).current == b + size
                &&& final(self).end == old(self).end
                &&& old(self).current <= b
                &&& b & ((size - 1) as usize) == 0
            }),
    {
        if !is_power_of_two(size) {
            return None;
        }
        let ret = align_up(self.current, size);
        if ret + size > self.end {
            return None;
        }
        self.current = ret + size;
        Some(ret & !0xf)
    }
}


/// Width of a memory BAR's address.
#[derive(Clone, Copy, Debug, PartialEq, Eq)]
pub enum MemoryBarType {
    Width32,
    Below1MiB,
    Width64,
}

/// What a base address register describes.
#[derive(Clone, Copy, Debug, PartialEq, Eq)]
pub enum BarInfo {
    Memory { address_type: MemoryBarType, prefetchable: bool, address: u64, size: u64 },
    IO { address: u32, size: u32 },
}

impl BarInfo {
    /// A 64-bit memory BAR fills its own slot and the next.
    pub fn takes_two_entries(&self) -> (b: bool)
        ensures
            b == (*self matches BarInfo::Memory { address_type: MemoryBarType::Width64, .. }),
    {
        match self {
            BarInfo::Memory { address_type: MemoryBarType::Width64, .. } => true,
            _ => false,
        }
    }
}

/// The value written back into a BAR.
#[derive(Clone, Copy, Debug, PartialEq, Eq)]
pub enum BarWrite {
    Keep,
    Set32(u32),
    Set64(u64),
}

/// The BAR write for a block at `addr`: by the BAR's width, none for a BAR
/// below 1 MiB.
pub open spec fn bar_write_for(address_type: MemoryBarType, addr: usize) -> BarWrite {
    match address_type {
        MemoryBarType::Width64 => BarWrite::Set64(addr as u64),
        MemoryBarType::Width32 => BarWrite::Set32(addr as u32),
        MemoryBarType::Below1MiB => BarWrite::Keep,
    }
}

/// The allocation a BAR asks for: a memory BAR with no address yet and a
/// size.
pub open spec fn bar_request(bar: Option<BarInfo>) -> Option<(MemoryBarType, usize)> {
    match bar {
        Some(BarInfo::Memory { address_type, address, size, .. }) => if address == 0 && size != 0 {
            Some((address_type, size as usize))
        } else {
            None
        },
        _ => None,
    }
}

/// One turn of the loop that configures a device's BARs, at slot `index`
/// with what the slot reports: a memory BAR without an address gets a block
/// of its size from the window, written back by its width; nothing happens
/// when the window has no room. Returns the write and the next slot, two on
/// for a 64-bit BAR.
pub fn configure_bar(alloc: &mut PciRangeAllocator, index: u8, bar: Option<BarInfo>) -> (r: (BarWrite, u8))
    requires
        index < 6,
        bar_request(bar) matches Some((_, size)) ==> alloc_fits(*old(alloc), size),
    ensures
        r.1 == if bar matches Some(b) && b matches BarInfo::Memory { address_type: MemoryBarType::Width64, .. } {
            index + 2
        } else {
            index + 1
        },
        match bar_request(bar) {
            None => r.0 == BarWrite::Keep && *final(alloc) == *old(alloc),
            Some((address_type, size)) => {
                let (got, after) = alloc_spec(*old(alloc), size);
                &&& *final(alloc) == after
                &&& r.0 == match got {
                    Some(a) => bar_write_for(address_type, a),
                    None => BarWrite::Keep,
                }
            },
        },
{
    match bar {
        None => (BarWrite::Keep, index + 1),
        Some(b) => {
            let mut write = BarWrite::Keep;
            if let BarInfo::Memory { address_type, address, size, .. } = b {
                if address == 0 && size != 0 {
                    if let Some(a) = alloc.alloc_pci_mem(size as usize) {
                        write = match address_type {
                            MemoryBarType::Width64 => BarWrite::Set64(a as u64),
                            MemoryBarType::Width32 => BarWrite::Set32(a as u32),
                            MemoryBarType::Below1MiB => BarWrite::Keep,
                        };
                    }
                }
            }
            let next = if b.takes_two_entries() {
                index + 2
            } else {
                index + 1
            };
            (write, next)
        },
    }
}

proof fn lemma_align_up(addr: usize, align: usize)
    requires
        pow2(align),
        addr + align - 1 <= usize::MAX,
    ensures
        addr <= align_up_spec(addr, align),
        align_up_spec(addr, align) - addr < align,
        align_up_spec(addr, align) & ((align - 1) as usize) == 0,
{
    let m: usize = (align - 1) as usize;
    let t: usize = (addr + m) as usize;
    let r: usize = t & !m;
    assert(r & m == 0 && addr <= r && r - addr <= m) by (bit_vector)
        requires
            align != 0,
            align & m == 0,
            m == align - 1,
            t == addr + m,
            r == t & !m,
    ;
}

/// Two blocks handed out one after the other do not overlap: the second
/// starts at or after the end of the first.
pub proof fn law_pci_blocks_disjoint(current: usize, end: usize, size1: usize, size2: usize)
    requires
        pow2(size1),
        pow2(size2),
        current + size1 - 1 <= usize::MAX,
        align_up_spec(current, size1) + size1 + size2 - 1 <= usize::MAX,
    ensures
        ({
            let b1 = align_up_spec(current, size1);
            let b2 = align_up_spec((b1 + size1) as usize, size2);
            current <= b1 && b1 + size1 <= b2
        }),
{
    lemma_align_up(current, size1);
    let b1 = align_up_spec(current, size1);
    lemma_align_up((b1 + size1) as usize, size2);
}

} // verus!
