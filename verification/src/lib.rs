//! Lightweight numeric-vector arithmetic with verified dimension checking.
//!
//! A vector is an ordered sequence of homogeneous numeric elements.  The
//! dynamically-sized variant in [`vector`] checks dimension compatibility at
//! call time and reports mismatches as typed errors; the statically-sized
//! variant in [`vector_sized`] carries its dimension as a const parameter, so
//! mismatched operands are rejected before anything runs.  Element-wise
//! operators, scalar broadcasts and the usual reductions (sum, product, dot
//! product) are built once over a small capability trait for element types.
//! The element set covers fixed-width integers, whose arithmetic wraps around
//! on overflow so that the ring laws in [`laws`] hold exactly, and complex
//! numbers over them.
use vstd::prelude::*;

pub mod complex;
pub mod element;
pub mod element_int;
pub mod laws;
pub mod modular;
pub mod ops;
pub mod vector;
pub mod vector_sized;

verus! {

/// Marker for anything that can be stored in a vector.
pub trait InVector {}

/// Types that can absorb a value of type `T` in place.
pub trait UpdateWith<T> {
    fn update_with(&mut self, t: T);
}

impl<T: element::Element> InVector for T {}

} // verus!
