//! Element-wise arithmetic: add, subtract, multiply, divide and negate,
//! each in an allocating form, an in-place form, and a scalar-broadcast
//! form.
//!
//! All operands of a two-tensor operation must have identical shapes;
//! a mismatch is a programmer error, ruled out by precondition instead
//! of answered by a checked error.  Addition, subtraction,
//! multiplication and negation follow two's-complement wrapping, the
//! native operators' release-mode behaviour; division by zero and an
//! overflowing quotient are ruled out by precondition because the
//! native division operator always panics there.

use vstd::prelude::*;
use crate::element::Element;
use crate::element::SignedElement;
use crate::element::trunc_div;
use crate::element::wrap_to;
use crate::memory::MemorySpace;
use crate::tensor::Tensor;

verus! {

/// The result of an element-wise binary operation: equal length, and
/// every element stands for the operation applied to the integers the
/// operands stand for.
pub open spec fn elementwise_binop<T: Element>(
    a: Seq<T>,
    b: Seq<T>,
    r: Seq<T>,
    f: spec_fn(int, int) -> int,
) -> bool {
    &&& r.len() == a.len()
    &&& forall|i: int| 0 <= i < a.len() ==> #[trigger] r[i].val() == f(a[i].val(), b[i].val())
}

/// The result of an element-wise unary operation.
pub open spec fn elementwise_unop<T: Element>(a: Seq<T>, r: Seq<T>, f: spec_fn(int) -> int) -> bool {
    &&& r.len() == a.len()
    &&& forall|i: int| 0 <= i < a.len() ==> #[trigger] r[i].val() == f(a[i].val())
}

/// Wrapping addition on the integers two elements stand for.
pub open spec fn add_of<T: Element>() -> spec_fn(int, int) -> int {
    |x: int, y: int| wrap_to(x + y, T::min_val(), T::max_val())
}

/// Wrapping subtraction on the integers two elements stand for.
pub open spec fn sub_of<T: Element>() -> spec_fn(int, int) -> int {
    |x: int, y: int| wrap_to(x - y, T::min_val(), T::max_val())
}

/// Wrapping multiplication on the integers two elements stand for.
pub open spec fn mul_of<T: Element>() -> spec_fn(int, int) -> int {
    |x: int, y: int| wrap_to(x * y, T::min_val(), T::max_val())
}

/// Truncating division on the integers two elements stand for.
pub open spec fn div_of<T: Element>() -> spec_fn(int, int) -> int {
    |x: int, y: int| trunc_div(x, y)
}

/// Wrapping negation on the integer an element stands for.
pub open spec fn neg_of<T: Element>() -> spec_fn(int) -> int {
    |x: int| wrap_to(-x, T::min_val(), T::max_val())
}

/// Element-wise division is defined at every position: no divisor is
/// zero and no quotient leaves the representable range.
pub open spec fn div_defined<T: Element>(a: Seq<T>, b: Seq<T>) -> bool {
    forall|i: int|
        0 <= i < a.len() ==> #[trigger] b[i].val() != 0 && T::min_val() <= trunc_div(
            a[i].val(),
            b[i].val(),
        ) <= T::max_val()
}

impl<T: Element> Tensor<T> {
    /// Performs element-wise addition of two tensors of identical shape
    /// into a new tensor; the inputs are left unmodified.
    pub fn add(&self, other: &Tensor<T>) -> (r: Tensor<T>)
        requires
            self.wf(),
            other.wf(),
            self@.dims == other@.dims,
        ensures
            r.wf(),
            r@.dims == self@.dims,
            elementwise_binop(self@.data, other@.data, r@.data, add_of::<T>()),
    {
        proof {
            self.lemma_size_is_product();
            other.lemma_size_is_product();
        }
        let n = self.data.count();
        let mut out: Vec<T> = Vec::new();
        let mut i: usize = 0;
        while i < n
            invariant
                i <= n,
                n == self@.data.len(),
                n == other@.data.len(),
                n >= 1,
                out@.len() == i,
                forall|k: int|
                    0 <= k < i ==> #[trigger] out@[k].val() == add_of::<T>()(
                        self@.data[k].val(),
                        other@.data[k].val(),
                    ),
            decreases n - i,
        {
            out.push((*self.data.access(i)).add_wrap(*other.data.access(i)));
            i += 1;
        }
        Tensor { metadata: self.metadata.duplicate(), data: MemorySpace::from_vec(out) }
    }

    /// Performs element-wise subtraction of two tensors of identical
    /// shape into a new tensor; the inputs are left unmodified.
    pub fn sub(&self, other: &Tensor<T>) -> (r: Tensor<T>)
        requires
            self.wf(),
            other.wf(),
            self@.dims == other@.dims,
        ensures
            r.wf(),
            r@.dims == self@.dims,
            elementwise_binop(self@.data, other@.data, r@.data, sub_of::<T>()),
    {
        proof {
            self.lemma_size_is_product();
            other.lemma_size_is_product();
        }
        let n = self.data.count();
        let mut out: Vec<T> = Vec::new();
        let mut i: usize = 0;
        while i < n
            invariant
                i <= n,
                n == self@.data.len(),
                n == other@.data.len(),
                n >= 1,
                out@.len() == i,
                forall|k: int|
                    0 <= k < i ==> #[trigger] out@[k].val() == sub_of::<T>()(
                        self@.data[k].val(),
                        other@.data[k].val(),
                    ),
            decreases n - i,
        {
            out.push((*self.data.access(i)).sub_wrap(*other.data.access(i)));
            i += 1;
        }
        Tensor { metadata: self.metadata.duplicate(), data: MemorySpace::from_vec(out) }
    }

    /// Performs element-wise multiplication of two tensors of identical
    /// shape into a new tensor; the inputs are left unmodified.
    pub fn mul(&self, other: &Tensor<T>) -> (r: Tensor<T>)
        requires
            self.wf(),
            other.wf(),
            self@.dims == other@.dims,
        ensures
            r.wf(),
            r@.dims == self@.dims,
            elementwise_binop(self@.data, other@.data, r@.data, mul_of::<T>()),
    {
        proof {
            self.lemma_size_is_product();
            other.lemma_size_is_product();
        }
        let n = self.data.count();
        let mut out: Vec<T> = Vec::new();
        let mut i: usize = 0;
        while i < n
            invariant
                i <= n,
                n == self@.data.len(),
                n == other@.data.len(),
                n >= 1,
                out@.len() == i,
                forall|k: int|
                    0 <= k < i ==> #[trigger] out@[k].val() == mul_of::<T>()(
                        self@.data[k].val(),
                        other@.data[k].val(),
                    ),
            decreases n - i,
        {
            out.push((*self.data.access(i)).mul_wrap(*other.data.access(i)));
            i += 1;
        }
        Tensor { metadata: self.metadata.duplicate(), data: MemorySpace::from_vec(out) }
    }

    /// Performs element-wise division of two tensors of identical shape
    /// into a new tensor; the inputs are left unmodified.  A zero
    /// divisor or an overflowing quotient anywhere is ruled out by
    /// precondition, since the native division operator fails fast on
    /// both.
    pub fn div(&self, other: &Tensor<T>) -> (r: Tensor<T>)
        requires
            self.wf(),
            other.wf(),
            self@.dims == other@.dims,
            div_defined(self@.data, other@.data),
        ensures
            r.wf(),
            r@.dims == self@.dims,
            elementwise_binop(self@.data, other@.data, r@.data, div_of::<T>()),
    {
        proof {
            self.lemma_size_is_product();
            other.lemma_size_is_product();
        }
        let n = self.data.count();
        let mut out: Vec<T> = Vec::new();
        let mut i: usize = 0;
        while i < n
            invariant
                i <= n,
                n == self@.data.len(),
                n == other@.data.len(),
                n >= 1,
                div_defined(self@.data, other@.data),
                out@.len() == i,
                forall|k: int|
                    0 <= k < i ==> #[trigger] out@[k].val() == div_of::<T>()(
                        self@.data[k].val(),
                        other@.data[k].val(),
                    ),
            decreases n - i,
        {
            out.push((*self.data.access(i)).div_elem(*other.data.access(i)));
            i += 1;
        }
        Tensor { metadata: self.metadata.duplicate(), data: MemorySpace::from_vec(out) }
    }

    /// Performs in-place element-wise addition of another tensor of
    /// identical shape into `self`.
    pub fn add_mutate(&mut self, other: &Tensor<T>)
        requires
            old(self).wf(),
            other.wf(),
            old(self)@.dims == other@.dims,
        ensures
            final(self).wf(),
            final(self)@.dims == old(self)@.dims,
            elementwise_binop(old(self)@.data, other@.data, final(self)@.data, add_of::<T>()),
    {
        proof {
            old(self).lemma_size_is_product();
            other.lemma_size_is_product();
        }
        let n = self.data.count();
        let mut i: usize = 0;
        while i < n
            invariant
                i <= n,
                self.metadata == old(self).metadata,
                self@.data.len() == n,
                n == old(self)@.data.len(),
                n == other@.data.len(),
                forall|k: int| i <= k < n ==> self@.data[k] == old(self)@.data[k],
                forall|k: int|
                    0 <= k < i ==> #[trigger] self@.data[k].val() == add_of::<T>()(
                        old(self)@.data[k].val(),
                        other@.data[k].val(),
                    ),
            decreases n - i,
        {
            let v = (*self.data.access(i)).add_wrap(*other.data.access(i));
            self.data.store(i, v);
            i += 1;
        }
    }

    /// Performs in-place element-wise subtraction of another tensor of
    /// identical shape from `self`.
    pub fn sub_mutate(&mut self, other: &Tensor<T>)
        requires
            old(self).wf(),
            other.wf(),
            old(self)@.dims == other@.dims,
        ensures
            final(self).wf(),
            final(self)@.dims == old(self)@.dims,
            elementwise_binop(old(self)@.data, other@.data, final(self)@.data, sub_of::<T>()),
    {
        proof {
            old(self).lemma_size_is_product();
            other.lemma_size_is_product();
        }
        let n = self.data.count();
        let mut i: usize = 0;
        while i < n
            invariant
                i <= n,
                self.metadata == old(self).metadata,
                self@.data.len() == n,
                n == old(self)@.data.len(),
                n == other@.data.len(),
                forall|k: int| i <= k < n ==> self@.data[k] == old(self)@.data[k],
                forall|k: int|
                    0 <= k < i ==> #[trigger] self@.data[k].val() == sub_of::<T>()(
                        old(self)@.data[k].val(),
                        other@.data[k].val(),
                    ),
            decreases n - i,
        {
            let v = (*self.data.access(i)).sub_wrap(*other.data.access(i));
            self.data.store(i, v);
            i += 1;
        }
    }

    /// Performs in-place element-wise multiplication of another tensor
    /// of identical shape into `self`.
    pub fn mul_mutate(&mut self, other: &Tensor<T>)
        requires
            old(self).wf(),
            other.wf(),
            old(self)@.dims == other@.dims,
        ensures
            final(self).wf(),
            final(self)@.dims == old(self)@.dims,
            elementwise_binop(old(self)@.data, other@.data, final(self)@.data, mul_of::<T>()),
    {
        proof {
            old(self).lemma_size_is_product();
            other.lemma_size_is_product();
        }
        let n = self.data.count();
        let mut i: usize = 0;
        while i < n
            invariant
                i <= n,
                self.metadata == old(self).metadata,
                self@.data.len() == n,
                n == old(self)@.data.len(),
                n == other@.data.len(),
                forall|k: int| i <= k < n ==> self@.data[k] == old(self)@.data[k],
                forall|k: int|
                    0 <= k < i ==> #[trigger] self@.data[k].val() == mul_of::<T>()(
                        old(self)@.data[k].val(),
                        other@.data[k].val(),
                    ),
            decreases n - i,
        {
            let v = (*self.data.access(i)).mul_wrap(*other.data.access(i));
            self.data.store(i, v);
            i += 1;
        }
    }

    /// Performs in-place element-wise division of `self` by another
    /// tensor of identical shape.  A zero divisor or an overflowing
    /// quotient anywhere is ruled out by precondition, since the
    /// native division operator fails fast on both.
    pub fn div_mutate(&mut self, other: &Tensor<T>)
        requires
            old(self).wf(),
            other.wf(),
            old(self)@.dims == other@.dims,
            div_defined(old(self)@.data, other@.data),
        ensures
            final(self).wf(),
            final(self)@.dims == old(self)@.dims,
            elementwise_binop(old(self)@.data, other@.data, final(self)@.data, div_of::<T>()),
    {
        proof {
            old(self).lemma_size_is_product();
            other.lemma_size_is_product();
        }
        let n = self.data.count();
        let mut i: usize = 0;
        while i < n
            invariant
                i <= n,
                self.metadata == old(self).metadata,
                self@.data.len() == n,
                n == old(self)@.data.len(),
                n == other@.data.len(),
                div_defined(old(self)@.data, other@.data),
                forall|k: int| i <= k < n ==> self@.data[k] == old(self)@.data[k],
                forall|k: int|
                    0 <= k < i ==> #[trigger] self@.data[k].val() == div_of::<T>()(
                        old(self)@.data[k].val(),
                        other@.data[k].val(),
                    ),
            decreases n - i,
        {
            let v = (*self.data.access(i)).div_elem(*other.data.access(i));
            self.data.store(i, v);
            i += 1;
        }
    }

    /// Performs element-wise addition of a scalar to every element into
    /// a new tensor; the input is left unmodified.
    pub fn add_value(&self, value: T) -> (r: Tensor<T>)
        requires
            self.wf(),
        ensures
            r.wf(),
            r@.dims == self@.dims,
            r@.data.len() == self@.data.len(),
            forall|i: int|
                0 <= i < self@.data.len() ==> #[trigger] r@.data[i].val() == wrap_to(
                    self@.data[i].val() + value.val(),
                    T::min_val(),
                    T::max_val(),
                ),
    {
        proof {
            self.lemma_size_is_product();
        }
        let n = self.data.count();
        let mut out: Vec<T> = Vec::new();
        let mut i: usize = 0;
        while i < n
            invariant
                i <= n,
                n == self@.data.len(),
                n >= 1,
                out@.len() == i,
                forall|k: int|
                    0 <= k < i ==> #[trigger] out@[k].val() == wrap_to(
                        self@.data[k].val() + value.val(),
                        T::min_val(),
                        T::max_val(),
                    ),
            decreases n - i,
        {
            out.push((*self.data.access(i)).add_wrap(value));
            i += 1;
        }
        Tensor { metadata: self.metadata.duplicate(), data: MemorySpace::from_vec(out) }
    }

    /// Performs in-place element-wise addition of a scalar to every
    /// element.
    pub fn add_value_mutate(&mut self, value: T)
        requires
            old(self).wf(),
        ensures
            final(self).wf(),
            final(self)@.dims == old(self)@.dims,
            final(self)@.data.len() == old(self)@.data.len(),
            forall|i: int|
                0 <= i < old(self)@.data.len() ==> #[trigger] final(self)@.data[i].val()
                    == wrap_to(
                    old(self)@.data[i].val() + value.val(),
                    T::min_val(),
                    T::max_val(),
                ),
    {
        proof {
            old(self).lemma_size_is_product();
        }
        let n = self.data.count();
        let mut i: usize = 0;
        while i < n
            invariant
                i <= n,
                self.metadata == old(self).metadata,
                self@.data.len() == n,
                n == old(self)@.data.len(),
                forall|k: int| i <= k < n ==> self@.data[k] == old(self)@.data[k],
                forall|k: int|
                    0 <= k < i ==> #[trigger] self@.data[k].val() == wrap_to(
                        old(self)@.data[k].val() + value.val(),
                        T::min_val(),
                        T::max_val(),
                    ),
            decreases n - i,
        {
            let v = (*self.data.access(i)).add_wrap(value);
            self.data.store(i, v);
            i += 1;
        }
    }

    /// Performs element-wise subtraction of a scalar from every element
    /// into a new tensor; the input is left unmodified.
    pub fn sub_value(&self, value: T) -> (r: Tensor<T>)
        requires
            self.wf(),
        ensures
            r.wf(),
            r@.dims == self@.dims,
            r@.data.len() == self@.data.len(),
            forall|i: int|
                0 <= i < self@.data.len() ==> #[trigger] r@.data[i].val() == wrap_to(
                    self@.data[i].val() - value.val(),
                    T::min_val(),
                    T::max_val(),
                ),
    {
        proof {
            self.lemma_size_is_product();
        }
        let n = self.data.count();
        let mut out: Vec<T> = Vec::new();
        let mut i: usize = 0;
        while i < n
            invariant
                i <= n,
                n == self@.data.len(),
                n >= 1,
                out@.len() == i,
                forall|k: int|
                    0 <= k < i ==> #[trigger] out@[k].val() == wrap_to(
                        self@.data[k].val() - value.val(),
                        T::min_val(),
                        T::max_val(),
                    ),
            decreases n - i,
        {
            out.push((*self.data.access(i)).sub_wrap(value));
            i += 1;
        }
        Tensor { metadata: self.metadata.duplicate(), data: MemorySpace::from_vec(out) }
    }

    /// Performs in-place element-wise subtraction of a scalar from
    /// every element.
    pub fn sub_value_mutate(&mut self, value: T)
        requires
            old(self).wf(),
        ensures
            final(self).wf(),
            final(self)@.dims == old(self)@.dims,
            final(self)@.data.len() == old(self)@.data.len(),
            forall|i: int|
                0 <= i < old(self)@.data.len() ==> #[trigger] final(self)@.data[i].val()
                    == wrap_to(
                    old(self)@.data[i].val() - value.val(),
                    T::min_val(),
                    T::max_val(),
                ),
    {
        proof {
            old(self).lemma_size_is_product();
        }
        let n = self.data.count();
        let mut i: usize = 0;
        while i < n
            invariant
                i <= n,
                self.metadata == old(self).metadata,
                self@.data.len() == n,
                n == old(self)@.data.len(),
                forall|k: int| i <= k < n ==> self@.data[k] == old(self)@.data[k],
                forall|k: int|
                    0 <= k < i ==> #[trigger] self@.data[k].val() == wrap_to(
                        old(self)@.data[k].val() - value.val(),
                        T::min_val(),
                        T::max_val(),
                    ),
            decreases n - i,
        {
            let v = (*self.data.access(i)).sub_wrap(value);
            self.data.store(i, v);
            i += 1;
        }
    }

    /// Performs element-wise multiplication of every element by a
    /// scalar into a new tensor; the input is left unmodified.
    pub fn mul_value(&self, value: T) -> (r: Tensor<T>)
        requires
            self.wf(),
        ensures
            r.wf(),
            r@.dims == self@.dims,
            r@.data.len() == self@.data.len(),
            forall|i: int|
                0 <= i < self@.data.len() ==> #[trigger] r@.data[i].val() == wrap_to(
                    self@.data[i].val() * value.val(),
                    T::min_val(),
                    T::max_val(),
                ),
    {
        proof {
            self.lemma_size_is_product();
        }
        let n = self.data.count();
        let mut out: Vec<T> = Vec::new();
        let mut i: usize = 0;
        while i < n
            invariant
                i <= n,
                n == self@.data.len(),
                n >= 1,
                out@.len() == i,
                forall|k: int|
                    0 <= k < i ==> #[trigger] out@[k].val() == wrap_to(
                        self@.data[k].val() * value.val(),
                        T::min_val(),
                        T::max_val(),
                    ),
            decreases n - i,
        {
            out.push((*self.data.access(i)).mul_wrap(value));
            i += 1;
        }
        Tensor { metadata: self.metadata.duplicate(), data: MemorySpace::from_vec(out) }
    }

    /// Performs in-place element-wise multiplication of every element
    /// by a scalar.
    pub fn mul_value_mutate(&mut self, value: T)
        requires
            old(self).wf(),
        ensures
            final(self).wf(),
            final(self)@.dims == old(self)@.dims,
            final(self)@.data.len() == old(self)@.data.len(),
            forall|i: int|
                0 <= i < old(self)@.data.len() ==> #[trigger] final(self)@.data[i].val()
                    == wrap_to(
                    old(self)@.data[i].val() * value.val(),
                    T::min_val(),
                    T::max_val(),
                ),
    {
        proof {
            old(self).lemma_size_is_product();
        }
        let n = self.data.count();
        let mut i: usize = 0;
        while i < n
            invariant
                i <= n,
                self.metadata == old(self).metadata,
                self@.data.len() == n,
                n == old(self)@.data.len(),
                forall|k: int| i <= k < n ==> self@.data[k] == old(self)@.data[k],
                forall|k: int|
                    0 <= k < i ==> #[trigger] self@.data[k].val() == wrap_to(
                        old(self)@.data[k].val() * value.val(),
                        T::min_val(),
                        T::max_val(),
                    ),
            decreases n - i,
        {
            let v = (*self.data.access(i)).mul_wrap(value);
            self.data.store(i, v);
            i += 1;
        }
    }

    /// Performs element-wise division of every element by a scalar into
    /// a new tensor; the input is left unmodified.  A zero scalar or an
    /// overflowing quotient anywhere is ruled out by precondition.
    pub fn div_value(&self, value: T) -> (r: Tensor<T>)
        requires
            self.wf(),
            value.val() != 0,
            forall|i: int|
                0 <= i < self@.data.len() ==> T::min_val() <= trunc_div(
                    #[trigger] self@.data[i].val(),
                    value.val(),
                ) <= T::max_val(),
        ensures
            r.wf(),
            r@.dims == self@.dims,
            r@.data.len() == self@.data.len(),
            forall|i: int|
                0 <= i < self@.data.len() ==> #[trigger] r@.data[i].val() == trunc_div(
                    self@.data[i].val(),
                    value.val(),
                ),
    {
        proof {
            self.lemma_size_is_product();
        }
        let n = self.data.count();
        let mut out: Vec<T> = Vec::new();
        let mut i: usize = 0;
        while i < n
            invariant
                i <= n,
                n == self@.data.len(),
                n >= 1,
                value.val() != 0,
                forall|k: int|
                    0 <= k < n ==> T::min_val() <= trunc_div(
                        #[trigger] self@.data[k].val(),
                        value.val(),
                    ) <= T::max_val(),
                out@.len() == i,
                forall|k: int|
                    0 <= k < i ==> #[trigger] out@[k].val() == trunc_div(
                        self@.data[k].val(),
                        value.val(),
                    ),
            decreases n - i,
        {
            out.push((*self.data.access(i)).div_elem(value));
            i += 1;
        }
        Tensor { metadata: self.metadata.duplicate(), data: MemorySpace::from_vec(out) }
    }

    /// Performs in-place element-wise division of every element by a
    /// scalar.  A zero scalar or an overflowing quotient anywhere is
    /// ruled out by precondition.
    pub fn div_value_mutate(&mut self, value: T)
        requires
            old(self).wf(),
            value.val() != 0,
            forall|i: int|
                0 <= i < old(self)@.data.len() ==> T::min_val() <= trunc_div(
                    #[trigger] old(self)@.data[i].val(),
                    value.val(),
                ) <= T::max_val(),
        ensures
            final(self).wf(),
            final(self)@.dims == old(self)@.dims,
            final(self)@.data.len() == old(self)@.data.len(),
            forall|i: int|
                0 <= i < old(self)@.data.len() ==> #[trigger] final(self)@.data[i].val()
                    == trunc_div(old(self)@.data[i].val(), value.val()),
    {
        proof {
            old(self).lemma_size_is_product();
        }
        let n = self.data.count();
        let mut i: usize = 0;
        while i < n
            invariant
                i <= n,
                self.metadata == old(self).metadata,
                self@.data.len() == n,
                n == old(self)@.data.len(),
                value.val() != 0,
                forall|k: int|
                    0 <= k < n ==> T::min_val() <= trunc_div(
                        #[trigger] old(self)@.data[k].val(),
                        value.val(),
                    ) <= T::max_val(),
                forall|k: int| i <= k < n ==> self@.data[k] == old(self)@.data[k],
                forall|k: int|
                    0 <= k < i ==> #[trigger] self@.data[k].val() == trunc_div(
                        old(self)@.data[k].val(),
                        value.val(),
                    ),
            decreases n - i,
        {
            let v = (*self.data.access(i)).div_elem(value);
            self.data.store(i, v);
            i += 1;
        }
    }
}

impl<T: SignedElement> Tensor<T> {
    /// Performs element-wise negation into a new tensor; the input is
    /// left unmodified.
    pub fn neg(&self) -> (r: Tensor<T>)
        requires
            self.wf(),
        ensures
            r.wf(),
            r@.dims == self@.dims,
            elementwise_unop(self@.data, r@.data, neg_of::<T>()),
    {
        proof {
            self.lemma_size_is_product();
        }
        let n = self.data.count();
        let mut out: Vec<T> = Vec::new();
        let mut i: usize = 0;
        while i < n
            invariant
                i <= n,
                n == self@.data.len(),
                n >= 1,
                out@.len() == i,
                forall|k: int|
                    0 <= k < i ==> #[trigger] out@[k].val() == neg_of::<T>()(
                        self@.data[k].val(),
                    ),
            decreases n - i,
        {
            out.push((*self.data.access(i)).neg_wrap());
            i += 1;
        }
        Tensor { metadata: self.metadata.duplicate(), data: MemorySpace::from_vec(out) }
    }

    /// Performs in-place element-wise negation.
    pub fn neg_mutate(&mut self)
        requires
            old(self).wf(),
        ensures
            final(self).wf(),
            final(self)@.dims == old(self)@.dims,
            elementwise_unop(old(self)@.data, final(self)@.data, neg_of::<T>()),
    {
        proof {
            old(self).lemma_size_is_product();
        }
        let n = self.data.count();
        let mut i: usize = 0;
        while i < n
            invariant
                i <= n,
                self.metadata == old(self).metadata,
                self@.data.len() == n,
                n == old(self)@.data.len(),
                forall|k: int| i <= k < n ==> self@.data[k] == old(self)@.data[k],
                forall|k: int|
                    0 <= k < i ==> #[trigger] self@.data[k].val() == neg_of::<T>()(
                        old(self)@.data[k].val(),
                    ),
            decreases n - i,
        {
            let v = (*self.data.access(i)).neg_wrap();
            self.data.store(i, v);
            i += 1;
        }
    }
}

/// Mutating/allocating equivalence for the binary operations: two data
/// sequences that each stand in the element-wise relation to the same
/// inputs under the same operation are the same sequence.  Each binary
/// operation's allocating and in-place forms share one `ensures`
/// relation, so by this law they produce identical elements from
/// identical inputs.
pub proof fn lemma_binop_deterministic<T: Element>(
    a: Seq<T>,
    b: Seq<T>,
    r1: Seq<T>,
    r2: Seq<T>,
    f: spec_fn(int, int) -> int,
)
    requires
        elementwise_binop(a, b, r1, f),
        elementwise_binop(a, b, r2, f),
    ensures
        r1 == r2,
{
    assert forall|i: int| 0 <= i < r1.len() implies r1[i] == r2[i] by {
        T::lemma_val_injective(r1[i], r2[i]);
    }
    assert(r1 =~= r2);
}

/// Mutating/allocating equivalence for the unary operations.
pub proof fn lemma_unop_deterministic<T: Element>(
    a: Seq<T>,
    r1: Seq<T>,
    r2: Seq<T>,
    f: spec_fn(int) -> int,
)
    requires
        elementwise_unop(a, r1, f),
        elementwise_unop(a, r2, f),
    ensures
        r1 == r2,
{
    assert forall|i: int| 0 <= i < r1.len() implies r1[i] == r2[i] by {
        T::lemma_val_injective(r1[i], r2[i]);
    }
    assert(r1 =~= r2);
}

/// Arithmetic identity: adding a tensor and then subtracting it again
/// restores every element, with no assumption beyond validity of the
/// values, since wrap-around addition and subtraction cancel exactly.
pub proof fn lemma_add_sub_cancel<T: Element>(a: Seq<T>, b: Seq<T>, c: Seq<T>, d: Seq<T>)
    requires
        elementwise_binop(a, b, c, add_of::<T>()),
        elementwise_binop(c, b, d, sub_of::<T>()),
    ensures
        d == a,
{
    assert forall|i: int| 0 <= i < d.len() implies d[i] == a[i] by {
        a[i].lemma_in_range();
        crate::element::lemma_wrap_add_sub_cancel(
            a[i].val(),
            b[i].val(),
            T::min_val(),
            T::max_val(),
        );
        T::lemma_val_injective(d[i], a[i]);
    }
    assert(d =~= a);
}

/// Arithmetic identity: negating twice restores every element.
pub proof fn lemma_neg_neg_identity<T: Element>(a: Seq<T>, b: Seq<T>, c: Seq<T>)
    requires
        elementwise_unop(a, b, neg_of::<T>()),
        elementwise_unop(b, c, neg_of::<T>()),
    ensures
        c == a,
{
    assert forall|i: int| 0 <= i < c.len() implies c[i] == a[i] by {
        a[i].lemma_in_range();
        crate::element::lemma_wrap_neg_neg(a[i].val(), T::min_val(), T::max_val());
        T::lemma_val_injective(c[i], a[i]);
    }
    assert(c =~= a);
}

} // verus!
