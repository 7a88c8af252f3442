//! Similarity reductions: single linear passes over two equally-shaped
//! tensors.
//!
//! The dot product accumulates in the element type itself, starting
//! from zero.  Cosine similarity and Euclidean distance are built from
//! the reductions here — the dot product, the sum of squares of each
//! operand, and the sum of squared differences — followed by a square
//! root and a quotient taken in floating point, which lies outside this
//! layer; a caller owning floating-point arithmetic finishes the
//! computation from these integer cores.

use vstd::prelude::*;
use crate::element::Element;
use crate::element::wrap_to;
use crate::tensor::Tensor;

verus! {

/// The wrap-around dot product of the first `n` positions: each product
/// and each partial sum is folded into the element range, in the order
/// the single-pass loop computes them.
pub open spec fn dot_wrap<T: Element>(a: Seq<T>, b: Seq<T>, n: int) -> int
    decreases n,
{
    if n <= 0 {
        0
    } else {
        wrap_to(
            dot_wrap(a, b, n - 1) + wrap_to(
                a[n - 1].val() * b[n - 1].val(),
                T::min_val(),
                T::max_val(),
            ),
            T::min_val(),
            T::max_val(),
        )
    }
}

/// The wrap-around sum of squared differences of the first `n`
/// positions, the square of the Euclidean distance.
pub open spec fn dist_sq_wrap<T: Element>(a: Seq<T>, b: Seq<T>, n: int) -> int
    decreases n,
{
    if n <= 0 {
        0
    } else {
        wrap_to(
            dist_sq_wrap(a, b, n - 1) + wrap_to(
                wrap_to(a[n - 1].val() - b[n - 1].val(), T::min_val(), T::max_val()) * wrap_to(
                    a[n - 1].val() - b[n - 1].val(),
                    T::min_val(),
                    T::max_val(),
                ),
                T::min_val(),
                T::max_val(),
            ),
            T::min_val(),
            T::max_val(),
        )
    }
}

/// The degenerate case of cosine similarity, at its integer core: a
/// zero vector's dot product with anything, and therefore also its own
/// sum of squares, is exactly zero.  A caller finishing the similarity
/// in floating point thus sees a zero norm for a zero vector and must
/// answer zero there instead of dividing.
pub proof fn lemma_zero_vector_dot<T: Element>(a: Seq<T>, b: Seq<T>, n: int)
    requires
        forall|i: int| 0 <= i < a.len() ==> a[i].val() == 0,
        b.len() == a.len(),
        0 <= n <= a.len(),
    ensures
        dot_wrap::<T>(a, b, n) == 0,
    decreases n,
{
    if n > 0 {
        lemma_zero_vector_dot::<T>(a, b, n - 1);
        a[n - 1].lemma_in_range();
        assert(a[n - 1].val() * b[n - 1].val() == 0) by (nonlinear_arith)
            requires a[n - 1].val() == 0;
        crate::element::lemma_wrap_to_shift(0, T::min_val(), T::max_val(), 0);
    }
}

impl<T: Element> Tensor<T> {
    /// Computes the dot product of two tensors of identical shape:
    /// the sum over all positions of the products of corresponding
    /// elements, accumulated in the element type starting from zero.
    pub fn dot_product(&self, other: &Tensor<T>) -> (r: T)
        requires
            self.wf(),
            other.wf(),
            self@.dims == other@.dims,
        ensures
            r.val() == dot_wrap::<T>(self@.data, other@.data, self@.data.len() as int),
    {
        proof {
            self.lemma_size_is_product();
            other.lemma_size_is_product();
        }
        let n = self.data.count();
        let mut acc = T::zero();
        let mut i: usize = 0;
        while i < n
            invariant
                i <= n,
                n == self@.data.len(),
                n == other@.data.len(),
                acc.val() == dot_wrap::<T>(self@.data, other@.data, i as int),
            decreases n - i,
        {
            let term = (*self.data.access(i)).mul_wrap(*other.data.access(i));
            acc = acc.add_wrap(term);
            i += 1;
        }
        acc
    }

    /// Computes the sum of squares of all elements, the square of the
    /// Euclidean norm: the dot product of the tensor with itself.
    pub fn sum_of_squares(&self) -> (r: T)
        requires
            self.wf(),
        ensures
            r.val() == dot_wrap::<T>(self@.data, self@.data, self@.data.len() as int),
    {
        self.dot_product(self)
    }

    /// Computes the sum of squared differences of two tensors of
    /// identical shape, the square of the Euclidean distance between
    /// them.
    pub fn distance_squared(&self, other: &Tensor<T>) -> (r: T)
        requires
            self.wf(),
            other.wf(),
            self@.dims == other@.dims,
        ensures
            r.val() == dist_sq_wrap::<T>(self@.data, other@.data, self@.data.len() as int),
    {
        proof {
            self.lemma_size_is_product();
            other.lemma_size_is_product();
        }
        let n = self.data.count();
        let mut acc = T::zero();
        let mut i: usize = 0;
        while i < n
            invariant
                i <= n,
                n == self@.data.len(),
                n == other@.data.len(),
                acc.val() == dist_sq_wrap::<T>(self@.data, other@.data, i as int),
            decreases n - i,
        {
            let delta = (*self.data.access(i)).sub_wrap(*other.data.access(i));
            let term = delta.mul_wrap(delta);
            acc = acc.add_wrap(term);
            i += 1;
        }
        acc
    }
}

} // verus!
