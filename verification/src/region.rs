//! Bounds-checked views over contiguous spans of memory-mapped storage.
//!
//! A [`Region`] is the model of `len` elements of a fixed width starting at
//! a base address. On the device, the read or write of index `i` is exactly
//! one volatile load or store at `base + i * size_of::<T>()` (see
//! [`Region::element_address`]): never batched, cached or reordered
//! relative to another access of the same region. The model keeps the
//! contents of that span as a sequence, which only these accesses touch.
//!
//! The address space has no ownership tracking, so nothing detects two
//! regions constructed over overlapping spans; keeping regions disjoint
//! unless aliasing is intended (as the double-buffered video modes intend
//! it, by construction) is a precondition on the caller.

use vstd::prelude::*;

verus! {

/// A bounds-checked view of `len` elements of width `size_of::<T>()`,
/// starting at a base address aligned to that width.
pub struct Region<T> {
    base: usize,
    data: Vec<T>,
}

impl<T> View for Region<T> {
    type V = Seq<T>;

    /// A region is, mathematically, the sequence of elements it covers.
    closed spec fn view(&self) -> Seq<T> {
        self.data@
    }
}

impl<T> Region<T> {
    /// The base address of the span.
    pub closed spec fn spec_base(&self) -> usize {
        self.base
    }

    /// The address at which element `i` of the span sits: each index is one
    /// element width further along.
    pub open spec fn element_address(&self, i: int) -> int {
        self.spec_base() + i * vstd::layout::size_of::<T>()
    }

    /// The number of elements in the span.
    pub fn len(&self) -> (n: usize)
        ensures
            n == self@.len(),
    {
        self.data.len()
    }

    /// The element at index `i`.
    pub fn read_index(&self, i: usize) -> (r: T) where T: Copy
        requires
            i < self@.len(),
        ensures
            r == self@[i as int],
    {
        self.data[i]
    }

    /// Store `v` at index `i`, leaving every other element of the span as
    /// it was.
    pub fn write_index(&mut self, i: usize, v: T)
        requires
            i < old(self)@.len(),
        ensures
            final(self)@ == old(self)@.update(i as int, v),
            final(self).spec_base() == old(self).spec_base(),
    {
        self.data[i] = v;
    }
}

impl<T: Copy> Region<T> {
    /// View `len` elements starting at `base`, which must be aligned to the
    /// element width. The model takes the span's contents as `fill`
    /// throughout, the value the boot sequence leaves in the spans it has
    /// cleared.
    pub fn new(base: usize, len: usize, fill: T) -> (r: Region<T>)
        requires
            base as nat % vstd::layout::size_of::<T>() == 0,
        ensures
            r.spec_base() == base,
            r@ == Seq::new(len as nat, |i: int| fill),
    {
        let mut data: Vec<T> = Vec::new();
        let mut i: usize = 0;
        while i < len
            invariant
                i <= len,
                data@ == Seq::new(i as nat, |j: int| fill),
            decreases len - i,
        {
            data.push(fill);
            proof {
                assert(data@ =~= Seq::new((i + 1) as nat, |j: int| fill));
            }
            i = i + 1;
        }
        Region { base, data }
    }
}

} // verus!
