//! The buffer layer: a contiguous run of elements with typed store and
//! load operations.
//!
//! `MemorySpace` owns the allocation that backs a tensor.  It tracks its
//! own length, and every access is bounds-checked by precondition at the
//! tensor boundary, so the caller-must-supply-the-right-count discipline
//! of a raw allocation becomes a checked invariant.  Destruction of the
//! elements and release of the allocation happen together when the
//! buffer is dropped, so the two teardown steps can never run out of
//! order or separately.

use vstd::prelude::*;
use crate::element::Element;

verus! {

/// A contiguous buffer of `T` values.  Either empty (no allocation) or
/// holding some positive number of initialized elements.
#[derive(Debug)]
pub struct MemorySpace<T> {
    buf: Vec<T>,
}

impl<T> View for MemorySpace<T> {
    type V = Seq<T>;

    closed spec fn view(&self) -> Seq<T> {
        self.buf@
    }
}

impl<T> MemorySpace<T> {
    /// Creates a new, empty buffer: nothing is allocated.
    pub fn new() -> (r: Self)
        ensures
            r@ == Seq::<T>::empty(),
    {
        let r = MemorySpace { buf: Vec::new() };
        proof {
            assert(r@ =~= Seq::<T>::empty());
        }
        r
    }

    /// Whether the buffer currently holds an allocation.
    pub fn is_allocated(&self) -> (r: bool)
        ensures
            r == (self@.len() != 0),
    {
        self.buf.len() != 0
    }

    /// The number of elements the buffer holds.
    pub fn count(&self) -> (r: usize)
        ensures
            r == self@.len(),
    {
        self.buf.len()
    }

    /// Creates a buffer of `count` copies of `value`.  A zero count is
    /// ruled out by precondition: a zero-size
    /// allocation is a programmer error.
    pub fn new_allocate_memset(count: usize, value: T) -> (r: Self) where T: Copy
        requires
            count >= 1,
        ensures
            r@.len() == count,
            forall|i: int| 0 <= i < count ==> r@[i] == value,
    {
        let mut buf: Vec<T> = Vec::new();
        let mut i: usize = 0;
        while i < count
            invariant
                i <= count,
                buf@.len() == i,
                forall|k: int| 0 <= k < i ==> buf@[k] == value,
            decreases count - i,
        {
            buf.push(value);
            i += 1;
        }
        MemorySpace { buf }
    }

    /// Takes ownership of a vector of values as the buffer's contents.
    /// An empty vector is ruled out by precondition: a zero-size
    /// allocation is a programmer error.
    pub fn from_vec(values: Vec<T>) -> (r: Self)
        requires
            values@.len() >= 1,
        ensures
            r@ == values@,
    {
        MemorySpace { buf: values }
    }

    /// Copies the contents of a slice into a fresh buffer.  An empty
    /// slice is ruled out by precondition.
    pub fn from_slice(values: &[T]) -> (r: Self) where T: Copy
        requires
            values@.len() >= 1,
        ensures
            r@ == values@,
    {
        let n = values.len();
        let mut buf: Vec<T> = Vec::new();
        let mut i: usize = 0;
        while i < n
            invariant
                i <= n,
                n == values@.len(),
                buf@ =~= values@.subrange(0, i as int),
            decreases n - i,
        {
            buf.push(values[i]);
            i += 1;
        }
        proof {
            assert(buf@ =~= values@);
        }
        MemorySpace { buf }
    }

    /// Overwrites the slot at `at` with `value`.  The offset must be in
    /// bounds.
    pub fn store(&mut self, at: usize, value: T)
        requires
            at < old(self)@.len(),
        ensures
            final(self)@ == old(self)@.update(at as int, value),
    {
        self.buf[at] = value;
    }

    /// Reads the slot at `at`.  The offset must be in bounds.
    pub fn access(&self, at: usize) -> (r: &T)
        requires
            at < self@.len(),
        ensures
            *r == self@[at as int],
    {
        &self.buf[at]
    }

    /// Borrows the slot at `at` mutably.  The offset must be in
    /// bounds; what the caller leaves behind the borrow is the slot's
    /// new content.
    pub fn access_mut(&mut self, at: usize) -> (r: &mut T)
        requires
            at < old(self)@.len(),
        ensures
            *r == old(self)@[at as int],
            final(self)@ == old(self)@.update(at as int, *final(r)),
    {
        &mut self.buf[at]
    }

    /// Overwrites every slot with `value`, keeping the length.
    pub fn memset(&mut self, value: T) where T: Copy
        ensures
            final(self)@.len() == old(self)@.len(),
            forall|i: int| 0 <= i < final(self)@.len() ==> final(self)@[i] == value,
    {
        let n = self.buf.len();
        let mut i: usize = 0;
        while i < n
            invariant
                i <= n,
                self.buf@.len() == n,
                forall|k: int| 0 <= k < i ==> self.buf@[k] == value,
            decreases n - i,
        {
            self.buf[i] = value;
            i += 1;
        }
    }

    /// Exposes the whole initialized range as a contiguous slice.
    pub fn as_slice(&self) -> (r: &[T])
        ensures
            r@ == self@,
    {
        self.buf.as_slice()
    }

    /// Exposes the whole initialized range as a mutable contiguous
    /// slice; what the caller leaves in the slice is what the buffer
    /// then holds.
    pub fn as_slice_mut(&mut self) -> (r: &mut [T])
        ensures
            r@ == old(self)@,
            final(self)@ == final(r)@,
    {
        self.buf.as_mut_slice()
    }

    /// Allocates a fresh buffer populated by a per-element clone of
    /// this one.  What a clone of an element is depends on the element
    /// type's own `clone`; the contract promises one clone call's
    /// possible result per slot, which for a plainly copied type means
    /// the same value.
    pub fn make_clone(&self) -> (r: Self) where T: Clone
        ensures
            r@.len() == self@.len(),
            forall|i: int| 0 <= i < self@.len() ==> cloned(self@[i], #[trigger] r@[i]),
    {
        let n = self.buf.len();
        let mut buf: Vec<T> = Vec::new();
        let mut i: usize = 0;
        while i < n
            invariant
                i <= n,
                n == self.buf@.len(),
                buf@.len() == i,
                forall|k: int| 0 <= k < i ==> cloned(self.buf@[k], #[trigger] buf@[k]),
            decreases n - i,
        {
            buf.push(self.buf[i].clone());
            i += 1;
        }
        MemorySpace { buf }
    }

    /// Allocates a fresh buffer holding a copy of every element.
    pub fn make_copy(&self) -> (r: Self) where T: Copy
        ensures
            r@ == self@,
    {
        let n = self.buf.len();
        let mut buf: Vec<T> = Vec::new();
        let mut i: usize = 0;
        while i < n
            invariant
                i <= n,
                n == self.buf@.len(),
                buf@ =~= self.buf@.subrange(0, i as int),
            decreases n - i,
        {
            buf.push(self.buf[i]);
            i += 1;
        }
        proof {
            assert(buf@ =~= self.buf@);
        }
        MemorySpace { buf }
    }
}

impl<T: Element> MemorySpace<T> {
    /// Compares two buffers element-wise over the integers the elements
    /// stand for; vacuously true on two empty buffers.
    pub fn cmp_eq(&self, other: &Self) -> (r: bool)
        requires
            self@.len() == other@.len(),
        ensures
            r == (self@ == other@),
    {
        let n = self.buf.len();
        let mut i: usize = 0;
        while i < n
            invariant
                i <= n,
                n == self@.len(),
                n == other@.len(),
                forall|k: int| 0 <= k < i ==> self@[k] == other@[k],
            decreases n - i,
        {
            if !self.buf[i].eq_val(other.buf[i]) {
                proof {
                    assert(self@[i as int].val() != other@[i as int].val());
                }
                return false;
            }
            proof {
                T::lemma_val_injective(self@[i as int], other@[i as int]);
            }
            i += 1;
        }
        proof {
            assert(self@ =~= other@);
        }
        true
    }
}

} // verus!
