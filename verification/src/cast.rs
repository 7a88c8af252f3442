//! Checked numeric casting between element types.
//!
//! Per-element conversion is delegated to a conversion table keyed by
//! the (source, target) pair; between integer element types the only
//! possible failure is a value out of the target's representable range,
//! reported as `Overflow`.  `PrecisionLoss` is the variant reserved for
//! conversions that cannot represent a value exactly, such as a
//! fractional value truncated to an integer.
//!
//! A whole-tensor cast is all-or-nothing: if any element fails, the
//! partial result is abandoned whole — its already-converted elements
//! are destructed and its allocation released together when the
//! temporary buffer is dropped — and only the error comes back, so no
//! partial state is ever observable.

use vstd::prelude::*;
use crate::element::Element;
use crate::memory::MemorySpace;
use crate::tensor::Tensor;

verus! {

/// The error of a failed numeric cast: the value is either out of the
/// target's representable range, or not representable exactly.
#[derive(Debug, PartialEq, Eq, Structural)]
pub enum CastError {
    /// The value lies outside the target type's representable range.
    Overflow,
    /// The value cannot be represented exactly in the target type.
    PrecisionLoss,
}

/// Casting a single element into another element type, preserving the
/// integer it stands for whenever the target can represent it, and
/// reporting `Overflow` exactly when it cannot.
pub trait TryCast<U: Element>: Element {
    /// Attempts to cast this value into `U`.
    fn try_cast(&self) -> (r: Result<U, CastError>)
        ensures
            U::min_val() <= self.val() <= U::max_val() ==> (r matches Ok(u) && u.val()
                == self.val()),
            !(U::min_val() <= self.val() <= U::max_val()) ==> r == Err::<U, CastError>(
                CastError::Overflow,
            ),
    ;
}

impl<T: Element> Tensor<T> {
    /// Attempts to cast the tensor into a tensor of a different element
    /// type without consuming the original.
    ///
    /// Succeeds if and only if every element fits the target's range,
    /// preserving the shape and the integer every element stands for;
    /// otherwise returns the first element's error and leaves no
    /// partial result behind.
    pub fn try_cast<U: Element>(&self) -> (r: Result<Tensor<U>, CastError>) where T: TryCast<U>
        requires
            self.wf(),
        ensures
            (r matches Ok(t) ==> t.wf() && t@.dims == self@.dims && t@.data.len()
                == self@.data.len() && (forall|i: int|
                0 <= i < self@.data.len() ==> #[trigger] t@.data[i].val()
                    == self@.data[i].val())),
            (r is Ok <==> (forall|i: int|
                0 <= i < self@.data.len() ==> U::min_val() <= #[trigger] self@.data[i].val()
                    <= U::max_val())),
            r is Err ==> r == Err::<Tensor<U>, CastError>(CastError::Overflow),
    {
        proof {
            self.lemma_size_is_product();
        }
        let n = self.data.count();
        let mut out: Vec<U> = Vec::new();
        let mut i: usize = 0;
        while i < n
            invariant
                i <= n,
                n == self@.data.len(),
                n >= 1,
                out@.len() == i,
                forall|k: int|
                    0 <= k < i ==> U::min_val() <= #[trigger] self@.data[k].val()
                        <= U::max_val(),
                forall|k: int|
                    0 <= k < i ==> #[trigger] out@[k].val() == self@.data[k].val(),
            decreases n - i,
        {
            match self.data.access(i).try_cast() {
                Ok(u) => {
                    out.push(u);
                },
                Err(err) => {
                    proof {
                        let bad = self@.data[i as int].val();
                        assert(!(U::min_val() <= bad <= U::max_val()));
                    }
                    return Err(err);
                },
            }
            i += 1;
        }
        Ok(Tensor { metadata: self.metadata.duplicate(), data: MemorySpace::from_vec(out) })
    }
}

} // verus!
