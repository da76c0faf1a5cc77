//! Traversal over a statically-sized vector's elements, reusing the dynamic
//! vector's cursor: a fresh call yields a fresh, single-pass traversal.
use super::Vector;
use crate::element::Element;
use crate::vector::iter::{VectorIter, VectorIterMut};
use vstd::prelude::*;

verus! {

impl<T: Element, const N: usize> Vector<T, N> {
    /// A fresh traversal over the elements, starting at the front.
    pub fn iter(&self) -> (r: VectorIter<T>)
        ensures
            r.elements() == self@,
            r.elements().len() == N,
            r.position() == 0,
    {
        VectorIter::from_parts(self.to_vec())
    }

    /// A mutable traversal over the elements: it consumes the vector, steps
    /// through the elements replacing any of them, and `finish` hands the
    /// updated elements back, still `N` of them.
    pub fn iter_mut(self) -> (r: VectorIterMut<T>)
        ensures
            r.elements() == self@,
            r.elements().len() == N,
            r.position() == 0,
    {
        VectorIterMut::from_parts(self.into_vec())
    }
}

} // verus!
