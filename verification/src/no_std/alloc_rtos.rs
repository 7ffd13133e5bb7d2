use crate::no_std::alloc_rust::is_power_of_two;
use vstd::prelude::*;

verus! {

/// The allocator that takes its memory from the RTOS memory pool.
pub struct MempoolAlloc;

impl MempoolAlloc {
    /// Whether the block at `addr` that the pool handed out meets the alignment `align`
    /// (a misaligned block stops the program).
    pub fn is_aligned(addr: usize, align: usize) -> (aligned: bool)
        requires
            is_power_of_two(align),
        ensures
            aligned == (addr & ((align - 1) as usize) == 0),
    {
        addr & (align - 1) == 0
    }
}

} // verus!
