//! Shape transformations: reshape in place, and the consuming variant
//! that hands the buffer to a tensor of a new rank.

use vstd::prelude::*;
use crate::metadata::flat_offset;
use crate::metadata::index_ok;
use crate::metadata::lemma_flat_offset_in_range;
use crate::metadata::product_of;
use crate::tensor::Tensor;
use crate::tensor::TensorView;

verus! {

impl<T> Tensor<T> {
    /// Reshapes the tensor to new dimensions.
    ///
    /// No value moves and none is reordered: only the mapping from
    /// coordinates to flat offsets changes.  New dimensions whose
    /// product differs from the element count are a programmer error,
    /// ruled out by precondition instead of answered by a checked error.
    pub fn reshape(&mut self, dimensions: &[usize])
        requires
            old(self).wf(),
            product_of(dimensions@) == old(self)@.data.len(),
        ensures
            final(self).wf(),
            final(self)@.dims == dimensions@,
            final(self)@.data == old(self)@.data,
    {
        self.metadata.reshape(dimensions);
    }

    /// Transforms the shape of this tensor to dimensions of a possibly
    /// different rank, consuming it: the buffer ownership transfers to
    /// the result without any copy or reallocation.
    ///
    /// New dimensions whose product differs from the element count are
    /// a programmer error, ruled out by precondition instead of
    /// answered by a checked error.
    pub fn change_rank(self, dimensions: &[usize]) -> (r: Tensor<T>)
        requires
            self.wf(),
            product_of(dimensions@) == self@.data.len(),
        ensures
            r.wf(),
            r@.dims == dimensions@,
            r@.data == self@.data,
    {
        let mut r = self;
        r.metadata.reshape(dimensions);
        r
    }
}

/// Reshape preserves values: a reshape leaves the flat element sequence
/// untouched, so every valid coordinate tuple of the new shape reads its
/// element from the same unchanged sequence, at an offset that stays
/// within it.
pub proof fn lemma_reshape_preserves_values<T>(
    before: TensorView<T>,
    after: TensorView<T>,
    idx: Seq<usize>,
)
    requires
        after.data == before.data,
        index_ok(after.dims, idx),
        before.data.len() == product_of(after.dims),
    ensures
        0 <= flat_offset(after.dims, idx) < before.data.len(),
        after.data[flat_offset(after.dims, idx)] == before.data[flat_offset(after.dims, idx)],
{
    lemma_flat_offset_in_range(after.dims, idx);
}

} // verus!
