//! Bounds-checked view over a contiguous element region.
//!
//! The view exists for high-frequency per-element access to a region the
//! caller supplies, without one boundary crossing per element.  It is a
//! capability over backing storage handed in at construction and handed back
//! by [`NativeArray::release`]; the declared element count is the caller's
//! promise about that storage, and every read or write is checked against it.
//! Out-of-range access either reports absence or failure (the checked paths)
//! or is excluded by `requires` (the direct paths, which an unverified caller
//! reaches only through a runtime abort).

use vstd::prelude::*;

verus! {

/// A length-checked, indexable window over a contiguous element region.
pub struct NativeArray<T> {
    data: Vec<T>,
    size: isize,
}

impl<T> View for NativeArray<T> {
    type V = Seq<T>;

    closed spec fn view(&self) -> Seq<T> {
        self.data@
    }
}

impl<T> NativeArray<T> {
    /// The declared element count.
    pub closed spec fn size_spec(self) -> isize {
        self.size
    }

    /// The declared count is non-negative and matches the backing region.
    pub open spec fn wf(self) -> bool {
        0 <= self.size_spec() && self@.len() == self.size_spec() as int
    }

    /// Whether `index` is inside the declared range.
    pub open spec fn in_bounds(self, index: int) -> bool {
        0 <= index < self@.len()
    }

    /// Wraps a caller-supplied region and its declared element count.  The
    /// count must describe the region truthfully; that promise is the
    /// caller's, and everything the view guarantees rests on it.
    pub fn new(data: Vec<T>, size: isize) -> (view: NativeArray<T>)
        requires
            data@.len() == size as int,
        ensures
            view.wf(),
            view@ == data@,
            view.size_spec() == size,
    {
        NativeArray { data, size }
    }

    /// Checked read: the element at `index`, or absent when `index` is
    /// outside the declared range.
    pub fn get(&self, index: isize) -> (r: Option<&T>)
        requires
            self.wf(),
        ensures
            r is Some <==> self.in_bounds(index as int),
            r matches Some(element) ==> *element == self@[index as int],
    {
        if index >= self.size || index < 0 {
            return None;
        }
        Some(&self.data[index as usize])
    }

    /// Checked write: stores `val` at `index` and reports success, or leaves
    /// the region untouched and reports failure when `index` is outside the
    /// declared range.
    pub fn set(&mut self, index: isize, val: T) -> (ok: bool)
        requires
            old(self).wf(),
        ensures
            final(self).wf(),
            final(self).size_spec() == old(self).size_spec(),
            ok <==> old(self).in_bounds(index as int),
            ok ==> final(self)@ == old(self)@.update(index as int, val),
            !ok ==> final(self)@ == old(self)@,
    {
        if index >= self.size || index < 0 {
            return false;
        }
        let element = vstd::std_specs::vec::vec_index_mut(&mut self.data, index as usize);
        *element = val;
        true
    }

    /// Checked in-place access: a mutable reference to the element at
    /// `index`, or absent — with the region untouched — when `index` is
    /// outside the declared range.
    pub fn get_mut(&mut self, index: isize) -> (r: Option<&mut T>)
        requires
            old(self).wf(),
        ensures
            r is Some <==> old(self).in_bounds(index as int),
            r is None ==> final(self)@ == old(self)@,
            r matches Some(element) ==> *element == old(self)@[index as int]
                && final(self)@ == old(self)@.update(index as int, *final(element)),
            final(self).wf(),
            final(self).size_spec() == old(self).size_spec(),
    {
        if index >= self.size || index < 0 {
            return None;
        }
        Some(vstd::std_specs::vec::vec_index_mut(&mut self.data, index as usize))
    }

    /// Direct read for call sites that have already validated the range:
    /// unconditional access, excluded outside the declared range.  An
    /// unverified caller that breaks the bound aborts at runtime.
    pub fn index(&self, index: isize) -> (element: &T)
        requires
            self.wf(),
            self.in_bounds(index as int),
        ensures
            *element == self@[index as int],
    {
        if index >= self.size || index < 0 {
            return vstd::pervasive::unreached();
        }
        &self.data[index as usize]
    }

    /// Direct in-place access for call sites that have already validated the
    /// range; the element may be updated through the returned reference.  An
    /// unverified caller that breaks the bound aborts at runtime.
    pub fn index_mut(&mut self, index: isize) -> (element: &mut T)
        requires
            old(self).wf(),
            old(self).in_bounds(index as int),
        ensures
            *element == old(self)@[index as int],
            final(self)@ == old(self)@.update(index as int, *final(element)),
            final(self).wf(),
            final(self).size_spec() == old(self).size_spec(),
    {
        if index >= self.size || index < 0 {
            return vstd::pervasive::unreached();
        }
        vstd::std_specs::vec::vec_index_mut(&mut self.data, index as usize)
    }

    /// The declared element count.
    pub fn size(&self) -> (size: isize)
        ensures
            size == self.size_spec(),
    {
        self.size
    }

    /// Ends the view's hold on the region and hands the backing storage
    /// back, exactly as the checked and direct writes left it.
    pub fn release(self) -> (data: Vec<T>)
        ensures
            data@ == self@,
    {
        self.data
    }
}

/// Round trip: writing `val` at an in-range index and then reading the same
/// index yields `val` back, and no other index is disturbed.  This is the
/// composition of the contracts of [`NativeArray::set`] and
/// [`NativeArray::get`], stated over the view those contracts use.
pub proof fn lemma_read_after_write<T>(region: Seq<T>, index: int, val: T)
    requires
        0 <= index < region.len(),
    ensures
        region.update(index, val)[index] == val,
        region.update(index, val).len() == region.len(),
        forall|other: int|
            0 <= other < region.len() && other != index
                ==> region.update(index, val)[other] == region[other],
{
}

} // verus!
