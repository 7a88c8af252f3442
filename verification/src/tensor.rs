//! The tensor itself: one shape-metadata instance coupled with one data
//! buffer that holds exactly `size` initialized elements.

use vstd::prelude::*;
use crate::element::Element;
use crate::memory::MemorySpace;
use crate::metadata::TensorMetaData;
use crate::metadata::product_of;

verus! {

/// The mathematical content of a tensor: its dimension vector and the
/// flat, row-major sequence of its elements.
pub ghost struct TensorView<T> {
    /// One entry per axis.
    pub dims: Seq<usize>,
    /// The elements, rightmost axis varying fastest.
    pub data: Seq<T>,
}

/// `Tensor` is a generic data structure that logically arranges its data
/// as a dense multidimensional array.
///
/// The number of dimensions, known as the rank, is the length of the
/// dimension vector: a scalar has rank `0`, a vector rank `1`, a matrix
/// rank `2`.  The element type `T` is fixed for the instance's lifetime;
/// the shape can change through `reshape`, never the element count.
#[derive(Debug)]
pub struct Tensor<T> {
    pub(crate) metadata: TensorMetaData,
    pub(crate) data: MemorySpace<T>,
}

impl<T> View for Tensor<T> {
    type V = TensorView<T>;

    open(crate) spec fn view(&self) -> TensorView<T> {
        TensorView { dims: self.metadata.spec_dims(), data: self.data@ }
    }
}

impl<T> Tensor<T> {
    /// Well-formedness, the invariant every public operation preserves:
    /// the metadata is internally consistent and the buffer holds exactly
    /// `size` elements, which is the product of the dimensions and is
    /// positive.
    pub open(crate) spec fn wf(&self) -> bool {
        &&& self.metadata.wf()
        &&& self.data@.len() == self.metadata.spec_size()
    }

    /// The shape invariant, stated publicly: a well-formed tensor holds
    /// exactly the product of its dimensions in elements, and that count
    /// is positive.
    pub proof fn lemma_size_is_product(&self)
        requires
            self.wf(),
        ensures
            self@.data.len() == product_of(self@.dims),
            product_of(self@.dims) >= 1,
            forall|i: int| 0 <= i < self@.dims.len() ==> self@.dims[i] >= 1,
    {
        self.metadata.lemma_wf();
    }

    /// Creates a new tensor by copying the data from the current
    /// instance into a freshly allocated buffer of copied metadata.
    pub fn copy(&self) -> (r: Self) where T: Copy
        ensures
            r@.dims == self@.dims,
            r@.data == self@.data,
            r.wf() == self.wf(),
    {
        Tensor { metadata: self.metadata.duplicate(), data: self.data.make_copy() }
    }
}

impl<T: Copy> Clone for Tensor<T> {
    /// Creates a new tensor holding the same shape and the same
    /// elements, cloned per element into a fresh buffer.
    fn clone(&self) -> (r: Self)
        ensures
            r@.dims == self@.dims,
            r@.data == self@.data,
            r.wf() == self.wf(),
    {
        Tensor { metadata: self.metadata.duplicate(), data: self.data.make_copy() }
    }
}

impl<T: Element> PartialEq for Tensor<T> {
    /// Compares the element count first, then the dimensions, then the
    /// data element-wise; the ordering keeps the element-wise pass for
    /// genuine candidates.
    fn eq(&self, other: &Self) -> (r: bool) {
        if self.data.count() != other.data.count() {
            proof {
                assert(self@.data.len() != other@.data.len());
            }
            return false;
        }
        if !self.metadata.cmp_dims_eq(&other.metadata) {
            return false;
        }
        self.data.cmp_eq(&other.data)
    }
}

impl<T: Element> vstd::std_specs::cmp::PartialEqSpecImpl for Tensor<T> {
    open spec fn obeys_eq_spec() -> bool {
        true
    }

    open spec fn eq_spec(&self, other: &Self) -> bool {
        self@.dims == other@.dims && self@.data == other@.data
    }
}

} // verus!
