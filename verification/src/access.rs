//! Element access by coordinate tuple, and the shape queries.

use vstd::prelude::*;
use crate::metadata::flat_offset;
use crate::metadata::index_ok;
use crate::metadata::lemma_flat_offset_in_range;
use crate::metadata::product_of;
use crate::tensor::Tensor;

verus! {

impl<T> Tensor<T> {
    /// Sets the value at the specified multidimensional coordinates.
    ///
    /// A coordinate tuple of the wrong arity or with an out-of-bounds
    /// coordinate is a programmer error, ruled out by precondition
    /// instead of answered by a checked error.
    pub fn set(&mut self, index: &[usize], value: T)
        requires
            old(self).wf(),
            index_ok(old(self)@.dims, index@),
        ensures
            final(self).wf(),
            final(self)@.dims == old(self)@.dims,
            final(self)@.data == old(self)@.data.update(
                flat_offset(old(self)@.dims, index@),
                value,
            ),
    {
        let off = self.metadata.offset(index);
        self.data.store(off, value);
    }

    /// Returns a reference to the value at the specified
    /// multidimensional coordinates.
    ///
    /// A coordinate tuple of the wrong arity or with an out-of-bounds
    /// coordinate is a programmer error, ruled out by precondition
    /// instead of answered by a checked error.
    pub fn get(&self, index: &[usize]) -> (r: &T)
        requires
            self.wf(),
            index_ok(self@.dims, index@),
        ensures
            *r == self@.data[flat_offset(self@.dims, index@)],
    {
        let off = self.metadata.offset(index);
        self.data.access(off)
    }

    /// Returns the shape (dimensions) of the tensor.
    pub fn shape(&self) -> (r: &[usize])
        ensures
            r@ == self@.dims,
    {
        self.metadata.shape()
    }

    /// Returns the total number of elements in the tensor, the product
    /// of its dimensions.
    pub fn size(&self) -> (r: usize)
        requires
            self.wf(),
        ensures
            r == self@.data.len(),
            r as int == product_of(self@.dims),
    {
        proof {
            self.metadata.lemma_wf();
        }
        self.metadata.size()
    }

    /// Returns the number of elements along the given axis, or nothing
    /// for an axis index at or beyond the rank: the one soft query in
    /// the access surface.
    pub fn dim_size(&self, index: usize) -> (r: Option<usize>)
        ensures
            r == (if (index as int) < self@.dims.len() {
                Some(self@.dims[index as int])
            } else {
                Option::<usize>::None
            }),
    {
        let s = self.metadata.shape();
        if index < s.len() {
            Some(s[index])
        } else {
            None
        }
    }

    /// Exposes the whole element range as a flat contiguous slice in
    /// row-major order.
    pub fn as_slice(&self) -> (r: &[T])
        ensures
            r@ == self@.data,
    {
        self.data.as_slice()
    }

    /// Exposes the whole element range as a flat mutable slice in
    /// row-major order; what the caller leaves in the slice is the
    /// tensor's new data, and a caller that keeps the slice's length
    /// (no slice operation can change it) keeps the tensor well-formed.
    pub fn as_slice_mut(&mut self) -> (r: &mut [T])
        requires
            old(self).wf(),
        ensures
            r@ == old(self)@.data,
            final(self)@.dims == old(self)@.dims,
            final(self)@.data == final(r)@,
            final(r)@.len() == old(self)@.data.len() ==> final(self).wf(),
    {
        self.data.as_slice_mut()
    }
}

/// Round-trip indexing: writing `v` at a valid coordinate tuple and
/// reading the same tuple back yields `v`.  Together with the contracts
/// of `set` and `get`, which place and fetch the element at
/// `flat_offset`, this pins the read-after-write behaviour for every
/// valid coordinate tuple.
pub proof fn lemma_set_get_round_trip<T>(dims: Seq<usize>, data: Seq<T>, idx: Seq<usize>, v: T)
    requires
        index_ok(dims, idx),
        data.len() == product_of(dims),
    ensures
        data.update(flat_offset(dims, idx), v)[flat_offset(dims, idx)] == v,
{
    lemma_flat_offset_in_range(dims, idx);
}

} // verus!
