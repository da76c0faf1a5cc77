//! A finite, restartable traversal over a vector's elements.
//!
//! A fresh call to [`Vector::iter`] yields a fresh traversal; a single
//! traversal object is single-pass and hands the elements out front to back.
use super::Vector;
use crate::element::Element;
use vstd::prelude::*;

verus! {

/// A single-pass traversal over a snapshot of a vector's elements.
pub struct VectorIter<T> {
    elems: Vec<T>,
    pos: usize,
}

impl<T> VectorIter<T> {
    /// The elements the traversal walks over, in order.
    pub closed spec fn elements(&self) -> Seq<T> {
        self.elems@
    }

    /// How many elements have been yielded so far.
    pub closed spec fn position(&self) -> int {
        self.pos as int
    }
}

impl<T> VectorIter<T> {
    /// Packages an element buffer as a fresh traversal.
    pub(crate) fn from_parts(elems: Vec<T>) -> (r: VectorIter<T>)
        ensures
            r.elements() == elems@,
            r.position() == 0,
    {
        VectorIter { elems, pos: 0 }
    }
}

impl<T: Element> VectorIter<T> {
    /// Yields the next element, or `None` once the traversal is done.
    pub fn next(&mut self) -> (r: Option<T>)
        ensures
            final(self).elements() == old(self).elements(),
            old(self).position() < old(self).elements().len() ==> {
                &&& r == Some(old(self).elements()[old(self).position()])
                &&& final(self).position() == old(self).position() + 1
            },
            old(self).position() >= old(self).elements().len() ==> {
                &&& r is None
                &&& final(self).position() == old(self).position()
            },
    {
        if self.pos < self.elems.len() {
            let v = self.elems[self.pos];
            self.pos = self.pos + 1;
            Some(v)
        } else {
            None
        }
    }
}

/// A single-pass traversal that can also replace the elements it visits:
/// the explicitly mutable iteration handle, and the only way a vector is
/// changed besides the assignment-style operations and `set`.
pub struct VectorIterMut<T> {
    elems: Vec<T>,
    pos: usize,
}

impl<T> VectorIterMut<T> {
    /// The elements as the traversal currently holds them, in order.
    pub closed spec fn elements(&self) -> Seq<T> {
        self.elems@
    }

    /// How many elements have been yielded so far.
    pub closed spec fn position(&self) -> int {
        self.pos as int
    }

    /// Packages an element buffer as a fresh mutable traversal.
    pub(crate) fn from_parts(elems: Vec<T>) -> (r: VectorIterMut<T>)
        ensures
            r.elements() == elems@,
            r.position() == 0,
    {
        VectorIterMut { elems, pos: 0 }
    }

    /// Ends the traversal and hands the (possibly updated) elements back.
    pub fn finish(self) -> (r: Vec<T>)
        ensures
            r@ == self.elements(),
    {
        self.elems
    }
}

impl<T: Element> VectorIterMut<T> {
    /// Yields the next element, or `None` once the traversal is done.
    pub fn next(&mut self) -> (r: Option<T>)
        ensures
            final(self).elements() == old(self).elements(),
            old(self).position() < old(self).elements().len() ==> {
                &&& r == Some(old(self).elements()[old(self).position()])
                &&& final(self).position() == old(self).position() + 1
            },
            old(self).position() >= old(self).elements().len() ==> {
                &&& r is None
                &&& final(self).position() == old(self).position()
            },
    {
        if self.pos < self.elems.len() {
            let v = self.elems[self.pos];
            self.pos = self.pos + 1;
            Some(v)
        } else {
            None
        }
    }

    /// Replaces the element the last `next` call yielded, in place.
    pub fn set(&mut self, value: T)
        requires
            0 < old(self).position() <= old(self).elements().len(),
        ensures
            final(self).elements() == old(self).elements().update(
                old(self).position() - 1,
                value,
            ),
            final(self).position() == old(self).position(),
    {
        self.elems[self.pos - 1] = value;
    }
}

impl<T: Element> Vector<T> {
    /// A fresh traversal over the elements, starting at the front.
    pub fn iter(&self) -> (r: VectorIter<T>)
        ensures
            r.elements() == self@,
            r.position() == 0,
    {
        VectorIter { elems: self.to_vec(), pos: 0 }
    }

    /// A mutable traversal over the elements: it consumes the vector, steps
    /// through the elements replacing any of them, and `finish` hands the
    /// updated elements back.
    pub fn iter_mut(self) -> (r: VectorIterMut<T>)
        ensures
            r.elements() == self@,
            r.position() == 0,
    {
        VectorIterMut::from_parts(self.into_vec())
    }
}

} // verus!
