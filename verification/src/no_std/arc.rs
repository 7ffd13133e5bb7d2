use crate::no_std::alloc_rust::{is_power_of_two, spec_padding};
use core::alloc::Layout;
use vstd::prelude::*;

verus! {

#[verifier::external_type_specification]
#[verifier::external_body]
pub struct ExLayout(Layout);

/// The size in bytes of a memory block of the layout, as `Layout::size` returns it.
pub uninterp spec fn layout_size(layout: Layout) -> usize;

/// Calls `Layout::size`. Trusted: the result is the layout's size, named by
/// `layout_size`.
#[verifier::external_body]
fn size_of_layout(layout: &Layout) -> (size: usize)
    ensures
        size == layout_size(*layout),
{
    layout.size()
}

/// The padding to insert after a block of the layout's size so that what follows is
/// aligned to `align`.
pub fn padding_needed_for(this: &Layout, align: usize) -> (pad: usize)
    ensures
        pad == spec_padding(layout_size(*this), align),
{
    let len = size_of_layout(this);
    let len_rounded_up = len.wrapping_add(align).wrapping_sub(1) & !align.wrapping_sub(1);
    len_rounded_up.wrapping_sub(len)
}

/// For a power-of-two alignment, and a size that can be rounded up without overflow,
/// the padding is the least amount that makes the size a multiple of the alignment.
pub proof fn lemma_padding_aligns(len: usize, align: usize)
    requires
        is_power_of_two(align),
        len + align - 1 <= usize::MAX,
    ensures
        spec_padding(len, align) < align,
        ((len + spec_padding(len, align)) as usize) & ((align - 1) as usize) == 0,
        len & ((align - 1) as usize) == 0 ==> spec_padding(len, align) == 0,
{
    let m = (align - 1) as usize;
    let up = (len + align - 1) as usize;
    assert(vstd::wrapping::usize_specs::wrapping_sub(
        vstd::wrapping::usize_specs::wrapping_add(len, align),
        1,
    ) == up);
    assert(vstd::wrapping::usize_specs::wrapping_sub(align, 1) == m);
    assert(align > 0 && align & m == 0 && m == align - 1 && up == len + m
        ==> (up & !m) >= len && ((up & !m) - len) < align) by (bit_vector);
    assert(align > 0 && align & m == 0 && m == align - 1 && up == len + m
        ==> ((up & !m) & m) == 0) by (bit_vector);
    assert(align > 0 && align & m == 0 && m == align - 1 && up == len + m
        && len & m == 0 ==> (up & !m) == len) by (bit_vector);
    assert(spec_padding(len, align) == ((up & !m) - len) as usize);
}

/// The shared part of a reference-counted value: the number of handles and the value.
pub struct ArcInner<T> {
    rc: usize,
    data: T,
}

impl<T> ArcInner<T> {
    pub closed spec fn count(&self) -> usize {
        self.rc
    }

    pub closed spec fn value(&self) -> T {
        self.data
    }

    /// The shared part of a new value, with its first handle.
    pub fn new(data: T) -> (inner: Self)
        ensures
            inner.count() == 1,
            inner.value() == data,
    {
        ArcInner { rc: 1, data }
    }

    /// The value the handles share.
    pub fn data(&self) -> (d: &T)
        ensures
            *d == self.value(),
    {
        &self.data
    }

    /// The number of handles.
    pub fn get_count(&self) -> (n: usize)
        ensures
            n == self.count(),
    {
        self.rc
    }

    /// Counts one more handle (cloning). Reaching `isize::MAX` handles is a fault that
    /// stops the program, so it is not admitted.
    pub fn acquire(&mut self)
        requires
            old(self).count() < isize::MAX,
        ensures
            final(self).count() == old(self).count() + 1,
            final(self).value() == old(self).value(),
    {
        self.rc = self.rc + 1;
    }

    /// Counts one handle fewer (dropping one) and tells whether it was the last, so the
    /// value is to be freed.
    pub fn release(&mut self) -> (last: bool)
        requires
            old(self).count() >= 1,
        ensures
            final(self).count() == old(self).count() - 1,
            last == (old(self).count() == 1),
            final(self).value() == old(self).value(),
    {
        self.rc = self.rc - 1;
        self.rc == 0
    }
}

} // verus!
