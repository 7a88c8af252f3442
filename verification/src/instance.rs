//! Construction of tensors: fill with a value, fill with zero, or take a
//! flat, row-major sequence of values.

use vstd::prelude::*;
use crate::element::Element;
use crate::memory::MemorySpace;
use crate::metadata::TensorMetaData;
use crate::metadata::product_of;
use crate::tensor::Tensor;

verus! {

impl<T> Tensor<T> {
    /// Creates a new tensor with the specified dimensions and all
    /// elements initialized to `value`.
    ///
    /// A dimension vector with a zero entry, or one whose product does
    /// not fit the machine word, is a programmer error, ruled out by
    /// precondition instead of answered by a checked error.
    pub fn new_set(dimensions: Vec<usize>, value: T) -> (r: Self) where T: Copy
        requires
            1 <= product_of(dimensions@) <= usize::MAX,
        ensures
            r.wf(),
            r@.dims == dimensions@,
            r@.data.len() == product_of(dimensions@),
            forall|i: int| 0 <= i < r@.data.len() ==> r@.data[i] == value,
    {
        let metadata = TensorMetaData::new(dimensions);
        let n = metadata.size();
        Tensor { metadata, data: MemorySpace::new_allocate_memset(n, value) }
    }

    /// Creates a new tensor with the specified dimensions and all
    /// elements initialized to the element type's zero.
    pub fn new_default(dimensions: Vec<usize>) -> (r: Self) where T: Element
        requires
            1 <= product_of(dimensions@) <= usize::MAX,
        ensures
            r.wf(),
            r@.dims == dimensions@,
            r@.data.len() == product_of(dimensions@),
            forall|i: int| 0 <= i < r@.data.len() ==> r@.data[i].val() == 0,
    {
        let metadata = TensorMetaData::new(dimensions);
        let n = metadata.size();
        Tensor { metadata, data: MemorySpace::new_allocate_memset(n, T::zero()) }
    }

    /// Creates a new tensor with the specified dimensions, copying its
    /// elements from a flat slice in row-major order.
    ///
    /// An empty slice, or a slice whose length differs from the product
    /// of the dimensions, is a programmer error, ruled out by
    /// precondition instead of answered by a checked error.
    pub fn from_slice(dimensions: Vec<usize>, values: &[T]) -> (r: Self) where T: Copy
        requires
            values@.len() == product_of(dimensions@),
            values@.len() >= 1,
        ensures
            r.wf(),
            r@.dims == dimensions@,
            r@.data == values@,
    {
        let metadata = TensorMetaData::new_cmp_eq(values.len(), dimensions);
        Tensor { metadata, data: MemorySpace::from_slice(values) }
    }

    /// Creates a new tensor with the specified dimensions, taking
    /// ownership of a vector of elements in row-major order.
    ///
    /// An empty vector, or a vector whose length differs from the
    /// product of the dimensions, is a programmer error, ruled out by
    /// precondition instead of answered by a checked error.
    pub fn from_vec(dimensions: Vec<usize>, values: Vec<T>) -> (r: Self)
        requires
            values@.len() == product_of(dimensions@),
            values@.len() >= 1,
        ensures
            r.wf(),
            r@.dims == dimensions@,
            r@.data == values@,
    {
        let metadata = TensorMetaData::new_cmp_eq(values.len(), dimensions);
        Tensor { metadata, data: MemorySpace::from_vec(values) }
    }
}

} // verus!
