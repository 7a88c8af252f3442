//! A fixed-shape, dense multidimensional array ("tensor") library.
//!
//! A tensor couples shape metadata (dimensions, derived row-major
//! strides, total element count) with a contiguous buffer holding
//! exactly that many initialized elements.  The library provides
//! construction, element access by coordinate tuple, element-wise
//! arithmetic, similarity reductions, reshaping, and checked numeric
//! casts between integer element types.
//!
//! Two design points exist for such a library: a compile-time rank
//! carried as a const generic parameter, and a dynamic rank carried as
//! a dimension vector.  This crate implements the dynamic-rank variant:
//! the rank is the length of the dimension vector, and a scalar is a
//! tensor of rank zero.
//!
//! The buffer layer tracks its own length, and every access is
//! bounds-checked by precondition at the tensor boundary, so the
//! unchecked-access hazards of a raw allocation are ruled out by
//! construction; element destruction and deallocation happen together
//! when a buffer is dropped, never separately or out of order.

pub mod access;
pub mod cast;
pub mod cast_impls;
pub mod display;
pub mod element;
pub mod instance;
pub mod memory;
pub mod metadata;
pub mod ops;
pub mod similarity;
pub mod tensor;
pub mod transform;

pub use cast::CastError;
pub use cast::TryCast;
pub use element::Element;
pub use element::SignedElement;
pub use memory::MemorySpace;
pub use tensor::Tensor;
pub use tensor::TensorView;
