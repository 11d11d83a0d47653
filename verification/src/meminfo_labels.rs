//! Labels of the memory statistics that /proc/meminfo reports.
use vstd::prelude::*;

verus! {

/// Number of lines of /proc/meminfo.
pub const MEMINFO_LINES: usize = 44;
/// Width of every label, colon and padding included.
pub const LABEL_WIDTH: usize = 16;

/// The 44 labels of /proc/meminfo, 16 ASCII bytes each, one after another.
pub open spec fn meminfo_labels() -> Seq<u8> {
    seq![
        77u8, 101, 109, 84, 111, 116, 97, 108, 58, 32, 32, 32, 32, 32, 32, 32,  // MemTotal:
        77u8, 101, 109, 70, 114, 101, 101, 58, 32, 32, 32, 32, 32, 32, 32, 32,  // MemFree:
        77u8, 101, 109, 65, 118, 97, 105, 108, 97, 98, 108, 101, 58, 32, 32, 32,  // MemAvailable:
        66u8, 117, 102, 102, 101, 114, 115, 58, 32, 32, 32, 32, 32, 32, 32, 32,  // Buffers:
        67u8, 97, 99, 104, 101, 100, 58, 32, 32, 32, 32, 32, 32, 32, 32, 32,  // Cached:
        83u8, 119, 97, 112, 67, 97, 99, 104, 101, 100, 58, 32, 32, 32, 32, 32,  // SwapCached:
        65u8, 99, 116, 105, 118, 101, 58, 32, 32, 32, 32, 32, 32, 32, 32, 32,  // Active:
        73u8, 110, 97, 99, 116, 105, 118, 101, 58, 32, 32, 32, 32, 32, 32, 32,  // Inactive:
        65u8, 99, 116, 105, 118, 101, 40, 97, 110, 111, 110, 41, 58, 32, 32, 32,  // Active(anon):
        73u8, 110, 97, 99, 116, 105, 118, 101, 40, 97, 110, 111, 110, 41, 58, 32,  // Inactive(anon):
        65u8, 99, 116, 105, 118, 101, 40, 102, 105, 108, 101, 41, 58, 32, 32, 32,  // Active(file):
        73u8, 110, 97, 99, 116, 105, 118, 101, 40, 102, 105, 108, 101, 41, 58, 32,  // Inactive(file):
        85u8, 110, 101, 118, 105, 99, 116, 97, 98, 108, 101, 58, 32, 32, 32, 32,  // Unevictable:
        77u8, 108, 111, 99, 107, 101, 100, 58, 32, 32, 32, 32, 32, 32, 32, 32,  // Mlocked:
        83u8, 119, 97, 112, 84, 111, 116, 97, 108, 58, 32, 32, 32, 32, 32, 32,  // SwapTotal:
        83u8, 119, 97, 112, 70, 114, 101, 101, 58, 32, 32, 32, 32, 32, 32, 32,  // SwapFree:
        68u8, 105, 114, 116, 121, 58, 32, 32, 32, 32, 32, 32, 32, 32, 32, 32,  // Dirty:
        87u8, 114, 105, 116, 101, 98, 97, 99, 107, 58, 32, 32, 32, 32, 32, 32,  // Writeback:
        65u8, 110, 111, 110, 80, 97, 103, 101, 115, 58, 32, 32, 32, 32, 32, 32,  // AnonPages:
        77u8, 97, 112, 112, 101, 100, 58, 32, 32, 32, 32, 32, 32, 32, 32, 32,  // Mapped:
        83u8, 104, 109, 101, 109, 58, 32, 32, 32, 32, 32, 32, 32, 32, 32, 32,  // Shmem:
        75u8, 82, 101, 99, 108, 97, 105, 109, 97, 98, 108, 101, 58, 32, 32, 32,  // KReclaimable:
        83u8, 108, 97, 98, 58, 32, 32, 32, 32, 32, 32, 32, 32, 32, 32, 32,  // Slab:
        83u8, 82, 101, 99, 108, 97, 105, 109, 97, 98, 108, 101, 58, 32, 32, 32,  // SReclaimable:
        83u8, 85, 110, 114, 101, 99, 108, 97, 105, 109, 58, 32, 32, 32, 32, 32,  // SUnreclaim:
        75u8, 101, 114, 110, 101, 108, 83, 116, 97, 99, 107, 58, 32, 32, 32, 32,  // KernelStack:
        80u8, 97, 103, 101, 84, 97, 98, 108, 101, 115, 58, 32, 32, 32, 32, 32,  // PageTables:
        78u8, 70, 83, 95, 85, 110, 115, 116, 97, 98, 108, 101, 58, 32, 32, 32,  // NFS_Unstable:
        66u8, 111, 117, 110, 99, 101, 58, 32, 32, 32, 32, 32, 32, 32, 32, 32,  // Bounce:
        87u8, 114, 105, 116, 101, 98, 97, 99, 107, 84, 109, 112, 58, 32, 32, 32,  // WritebackTmp:
        67u8, 111, 109, 109, 105, 116, 76, 105, 109, 105, 116, 58, 32, 32, 32, 32,  // CommitLimit:
        67u8, 111, 109, 109, 105, 116, 116, 101, 100, 95, 65, 83, 58, 32, 32, 32,  // Committed_AS:
        86u8, 109, 97, 108, 108, 111, 99, 84, 111, 116, 97, 108, 58, 32, 32, 32,  // VmallocTotal:
        86u8, 109, 97, 108, 108, 111, 99, 85, 115, 101, 100, 58, 32, 32, 32, 32,  // VmallocUsed:
        86u8, 109, 97, 108, 108, 111, 99, 67, 104, 117, 110, 107, 58, 32, 32, 32,  // VmallocChunk:
        80u8, 101, 114, 99, 112, 117, 58, 32, 32, 32, 32, 32, 32, 32, 32, 32,  // Percpu:
        72u8, 117, 103, 101, 80, 97, 103, 101, 115, 95, 84, 111, 116, 97, 108, 58,  // HugePages_Total:
        72u8, 117, 103, 101, 80, 97, 103, 101, 115, 95, 70, 114, 101, 101, 58, 32,  // HugePages_Free:
        72u8, 117, 103, 101, 80, 97, 103, 101, 115, 95, 82, 115, 118, 100, 58, 32,  // HugePages_Rsvd:
        72u8, 117, 103, 101, 80, 97, 103, 101, 115, 95, 83, 117, 114, 112, 58, 32,  // HugePages_Surp:
        72u8, 117, 103, 101, 112, 97, 103, 101, 115, 105, 122, 101, 58, 32, 32, 32,  // Hugepagesize:
        68u8, 105, 114, 101, 99, 116, 77, 97, 112, 52, 107, 58, 32, 32, 32, 32,  // DirectMap4k:
        68u8, 105, 114, 101, 99, 116, 77, 97, 112, 50, 77, 58, 32, 32, 32, 32,  // DirectMap2M:
        68u8, 105, 114, 101, 99, 116, 77, 97, 112, 49, 71, 58, 32, 32, 32, 32,  // DirectMap1G:
    ]
}

/// The label table as bytes.
pub fn meminfo_label_table() -> (v: Vec<u8>)
    ensures
        v@ == meminfo_labels(),
{
    let v: Vec<u8> = vec![
        77u8, 101, 109, 84, 111, 116, 97, 108, 58, 32, 32, 32, 32, 32, 32, 32,  // MemTotal:
        77u8, 101, 109, 70, 114, 101, 101, 58, 32, 32, 32, 32, 32, 32, 32, 32,  // MemFree:
        77u8, 101, 109, 65, 118, 97, 105, 108, 97, 98, 108, 101, 58, 32, 32, 32,  // MemAvailable:
        66u8, 117, 102, 102, 101, 114, 115, 58, 32, 32, 32, 32, 32, 32, 32, 32,  // Buffers:
        67u8, 97, 99, 104, 101, 100, 58, 32, 32, 32, 32, 32, 32, 32, 32, 32,  // Cached:
        83u8, 119, 97, 112, 67, 97, 99, 104, 101, 100, 58, 32, 32, 32, 32, 32,  // SwapCached:
        65u8, 99, 116, 105, 118, 101, 58, 32, 32, 32, 32, 32, 32, 32, 32, 32,  // Active:
        73u8, 110, 97, 99, 116, 105, 118, 101, 58, 32, 32, 32, 32, 32, 32, 32,  // Inactive:
        65u8, 99, 116, 105, 118, 101, 40, 97, 110, 111, 110, 41, 58, 32, 32, 32,  // Active(anon):
        73u8, 110, 97, 99, 116, 105, 118, 101, 40, 97, 110, 111, 110, 41, 58, 32,  // Inactive(anon):
        65u8, 99, 116, 105, 118, 101, 40, 102, 105, 108, 101, 41, 58, 32, 32, 32,  // Active(file):
        73u8, 110, 97, 99, 116, 105, 118, 101, 40, 102, 105, 108, 101, 41, 58, 32,  // Inactive(file):
        85u8, 110, 101, 118, 105, 99, 116, 97, 98, 108, 101, 58, 32, 32, 32, 32,  // Unevictable:
        77u8, 108, 111, 99, 107, 101, 100, 58, 32, 32, 32, 32, 32, 32, 32, 32,  // Mlocked:
        83u8, 119, 97, 112, 84, 111, 116, 97, 108, 58, 32, 32, 32, 32, 32, 32,  // SwapTotal:
        83u8, 119, 97, 112, 70, 114, 101, 101, 58, 32, 32, 32, 32, 32, 32, 32,  // SwapFree:
        68u8, 105, 114, 116, 121, 58, 32, 32, 32, 32, 32, 32, 32, 32, 32, 32,  // Dirty:
        87u8, 114, 105, 116, 101, 98, 97, 99, 107, 58, 32, 32, 32, 32, 32, 32,  // Writeback:
        65u8, 110, 111, 110, 80, 97, 103, 101, 115, 58, 32, 32, 32, 32, 32, 32,  // AnonPages:
        77u8, 97, 112, 112, 101, 100, 58, 32, 32, 32, 32, 32, 32, 32, 32, 32,  // Mapped:
        83u8, 104, 109, 101, 109, 58, 32, 32, 32, 32, 32, 32, 32, 32, 32, 32,  // Shmem:
        75u8, 82, 101, 99, 108, 97, 105, 109, 97, 98, 108, 101, 58, 32, 32, 32,  // KReclaimable:
        83u8, 108, 97, 98, 58, 32, 32, 32, 32, 32, 32, 32, 32, 32, 32, 32,  // Slab:
        83u8, 82, 101, 99, 108, 97, 105, 109, 97, 98, 108, 101, 58, 32, 32, 32,  // SReclaimable:
        83u8, 85, 110, 114, 101, 99, 108, 97, 105, 109, 58, 32, 32, 32, 32, 32,  // SUnreclaim:
        75u8, 101, 114, 110, 101, 108, 83, 116, 97, 99, 107, 58, 32, 32, 32, 32,  // KernelStack:
        80u8, 97, 103, 101, 84, 97, 98, 108, 101, 115, 58, 32, 32, 32, 32, 32,  // PageTables:
        78u8, 70, 83, 95, 85, 110, 115, 116, 97, 98, 108, 101, 58, 32, 32, 32,  // NFS_Unstable:
        66u8, 111, 117, 110, 99, 101, 58, 32, 32, 32, 32, 32, 32, 32, 32, 32,  // Bounce:
        87u8, 114, 105, 116, 101, 98, 97, 99, 107, 84, 109, 112, 58, 32, 32, 32,  // WritebackTmp:
        67u8, 111, 109, 109, 105, 116, 76, 105, 109, 105, 116, 58, 32, 32, 32, 32,  // CommitLimit:
        67u8, 111, 109, 109, 105, 116, 116, 101, 100, 95, 65, 83, 58, 32, 32, 32,  // Committed_AS:
        86u8, 109, 97, 108, 108, 111, 99, 84, 111, 116, 97, 108, 58, 32, 32, 32,  // VmallocTotal:
        86u8, 109, 97, 108, 108, 111, 99, 85, 115, 101, 100, 58, 32, 32, 32, 32,  // VmallocUsed:
        86u8, 109, 97, 108, 108, 111, 99, 67, 104, 117, 110, 107, 58, 32, 32, 32,  // VmallocChunk:
        80u8, 101, 114, 99, 112, 117, 58, 32, 32, 32, 32, 32, 32, 32, 32, 32,  // Percpu:
        72u8, 117, 103, 101, 80, 97, 103, 101, 115, 95, 84, 111, 116, 97, 108, 58,  // HugePages_Total:
        72u8, 117, 103, 101, 80, 97, 103, 101, 115, 95, 70, 114, 101, 101, 58, 32,  // HugePages_Free:
        72u8, 117, 103, 101, 80, 97, 103, 101, 115, 95, 82, 115, 118, 100, 58, 32,  // HugePages_Rsvd:
        72u8, 117, 103, 101, 80, 97, 103, 101, 115, 95, 83, 117, 114, 112, 58, 32,  // HugePages_Surp:
        72u8, 117, 103, 101, 112, 97, 103, 101, 115, 105, 122, 101, 58, 32, 32, 32,  // Hugepagesize:
        68u8, 105, 114, 101, 99, 116, 77, 97, 112, 52, 107, 58, 32, 32, 32, 32,  // DirectMap4k:
        68u8, 105, 114, 101, 99, 116, 77, 97, 112, 50, 77, 58, 32, 32, 32, 32,  // DirectMap2M:
        68u8, 105, 114, 101, 99, 116, 77, 97, 112, 49, 71, 58, 32, 32, 32, 32,  // DirectMap1G:
    ];
    assert(v@ =~= meminfo_labels());
    v
}

} // verus!
