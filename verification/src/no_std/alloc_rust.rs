use vstd::prelude::*;

verus! {

/// The bytes of the arena that the allocator hands out.
pub const ARENA_SIZE: usize = 8 * 1024;

/// The largest alignment the arena serves.
pub const MAX_SUPPORTED_ALIGN: usize = 256;

/// Whether `align` is a power of two, as a `Layout`'s alignment always is.
pub open spec fn is_power_of_two(align: usize) -> bool {
    align > 0 && align & (align - 1) as usize == 0
}

/// `x` rounded down to a multiple of the power of two `align`.
pub open spec fn round_down(x: usize, align: usize) -> usize {
    x & !((align - 1) as usize)
}

/// Rounding down keeps a value at most what it was, aligned, and within one
/// alignment step of it.
pub proof fn lemma_round_down(x: usize, align: usize)
    requires
        is_power_of_two(align),
    ensures
        round_down(x, align) <= x,
        round_down(x, align) & ((align - 1) as usize) == 0,
        x - round_down(x, align) < align,
{
    assert(x & !((align - 1) as usize) <= x) by (bit_vector);
    assert(align > 0 ==> (x & !((align - 1) as usize)) & ((align - 1) as usize) == 0) by (bit_vector);
    assert(align > 0 && align & (align - 1) as usize == 0 ==> ((x - (x & !((align - 1) as usize))) as usize) < align) by (bit_vector);
}

/// A bump allocator over a fixed arena: memory is handed out from the top down and
/// never given back. It keeps the number of bytes below the last allocation.
pub struct ArenaAlloc {
    remaining: usize,
}

impl ArenaAlloc {
    pub closed spec fn remaining(&self) -> usize {
        self.remaining
    }

    /// A whole, unused arena.
    pub fn new() -> (a: Self)
        ensures
            a.remaining() == ARENA_SIZE,
    {
        ArenaAlloc { remaining: ARENA_SIZE }
    }

    /// One attempt to take `size` bytes from the `remaining` ones: the new offset is
    /// `remaining - size` rounded down to the alignment; too few bytes give nothing.
    pub fn reserve(remaining: usize, size: usize, align: usize) -> (offset: Option<usize>)
        requires
            is_power_of_two(align),
        ensures
            size > remaining ==> offset is None,
            size <= remaining ==> offset == Some(round_down((remaining - size) as usize, align)),
    {
        if size > remaining {
            return None;
        }
        let align_mask_to_round_down = !(align - 1);
        Some((remaining - size) & align_mask_to_round_down)
    }

    /// Allocates `size` bytes aligned to `align` and returns their offset in the arena:
    /// alignments above `MAX_SUPPORTED_ALIGN` and requests that do not fit give nothing.
    pub fn allocate(&mut self, size: usize, align: usize) -> (offset: Option<usize>)
        requires
            is_power_of_two(align),
        ensures
            align > MAX_SUPPORTED_ALIGN || size > old(self).remaining() ==> {
                &&& offset is None
                &&& final(self).remaining() == old(self).remaining()
            },
            align <= MAX_SUPPORTED_ALIGN && size <= old(self).remaining() ==> {
                &&& offset == Some(round_down((old(self).remaining() - size) as usize, align))
                &&& final(self).remaining() == offset.unwrap()
            },
            offset matches Some(o) ==> o + size <= old(self).remaining() && o & ((align - 1) as usize) == 0,
    {
        if align > MAX_SUPPORTED_ALIGN {
            return None;
        }
        match Self::reserve(self.remaining, size, align) {
            None => None,
            Some(allocated) => {
                proof {
                    lemma_round_down((self.remaining - size) as usize, align);
                }
                self.remaining = allocated;
                Some(allocated)
            },
        }
    }
}

/// The padding that brings a size of `len` bytes up to a multiple of `align`, computed
/// with wrapping arithmetic as `Layout::padding_needed_for` does.
pub open spec fn spec_padding(len: usize, align: usize) -> usize {
    vstd::wrapping::usize_specs::wrapping_sub(
        vstd::wrapping::usize_specs::wrapping_sub(
            vstd::wrapping::usize_specs::wrapping_add(len, align),
            1,
        ) & !vstd::wrapping::usize_specs::wrapping_sub(align, 1),
        len,
    )
}


/// Two successive allocations never overlap: each block lies below the bytes not yet
/// handed out, and the next block ends at or below the start of the previous one.
pub proof fn lemma_allocations_disjoint(
    remaining: usize,
    size1: usize,
    align1: usize,
    size2: usize,
    align2: usize,
)
    requires
        is_power_of_two(align1),
        is_power_of_two(align2),
        size1 <= remaining,
        size2 <= round_down((remaining - size1) as usize, align1),
    ensures
        ({
            let first = round_down((remaining - size1) as usize, align1);
            let second = round_down((first - size2) as usize, align2);
            &&& first + size1 <= remaining
            &&& second + size2 <= first
        }),
{
    let first = round_down((remaining - size1) as usize, align1);
    lemma_round_down((remaining - size1) as usize, align1);
    lemma_round_down((first - size2) as usize, align2);
}

} // verus!
