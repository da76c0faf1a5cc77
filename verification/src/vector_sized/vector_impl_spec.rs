//! Convenience constructors for the small named dimensions: one labeled
//! scalar argument per component, sugar over the generic construction.
use super::Vector;
use crate::element::Element;
use vstd::prelude::*;

verus! {

impl<T: Element> Vector<T, 0> {
    /// Builds the empty vector.
    pub fn create() -> (r: Self)
        ensures
            r@ == Seq::<T>::empty(),
    {
        Vector::new()
    }
}

impl<T: Element> Vector<T, 1> {
    /// Builds a one-dimensional vector from its component.
    pub fn create(x: T) -> (r: Self)
        ensures
            r@ == seq![x],
    {
        let mut elems: Vec<T> = Vec::new();
        elems.push(x);
        proof {
            assert(elems@ =~= seq![x]);
        }
        Vector { elems }
    }
}

impl<T: Element> Vector<T, 2> {
    /// Builds a two-dimensional vector from its components.
    pub fn create(x: T, y: T) -> (r: Self)
        ensures
            r@ == seq![x, y],
    {
        let mut elems: Vec<T> = Vec::new();
        elems.push(x);
        elems.push(y);
        proof {
            assert(elems@ =~= seq![x, y]);
        }
        Vector { elems }
    }
}

impl<T: Element> Vector<T, 3> {
    /// Builds a three-dimensional vector from its components.
    pub fn create(x: T, y: T, z: T) -> (r: Self)
        ensures
            r@ == seq![x, y, z],
    {
        let mut elems: Vec<T> = Vec::new();
        elems.push(x);
        elems.push(y);
        elems.push(z);
        proof {
            assert(elems@ =~= seq![x, y, z]);
        }
        Vector { elems }
    }
}

impl<T: Element> Vector<T, 4> {
    /// Builds a four-dimensional vector from its components.
    pub fn create(w: T, x: T, y: T, z: T) -> (r: Self)
        ensures
            r@ == seq![w, x, y, z],
    {
        let mut elems: Vec<T> = Vec::new();
        elems.push(w);
        elems.push(x);
        elems.push(y);
        elems.push(z);
        proof {
            assert(elems@ =~= seq![w, x, y, z]);
        }
        Vector { elems }
    }
}

impl<T: Element> Vector<T, 5> {
    /// Builds a five-dimensional vector from its components.
    pub fn create(x0: T, x1: T, x2: T, x3: T, x4: T) -> (r: Self)
        ensures
            r@ == seq![x0, x1, x2, x3, x4],
    {
        let mut elems: Vec<T> = Vec::new();
        elems.push(x0);
        elems.push(x1);
        elems.push(x2);
        elems.push(x3);
        elems.push(x4);
        proof {
            assert(elems@ =~= seq![x0, x1, x2, x3, x4]);
        }
        Vector { elems }
    }
}

impl<T: Element> Vector<T, 6> {
    /// Builds a six-dimensional vector from its components.
    pub fn create(x0: T, x1: T, x2: T, x3: T, x4: T, x5: T) -> (r: Self)
        ensures
            r@ == seq![x0, x1, x2, x3, x4, x5],
    {
        let mut elems: Vec<T> = Vec::new();
        elems.push(x0);
        elems.push(x1);
        elems.push(x2);
        elems.push(x3);
        elems.push(x4);
        elems.push(x5);
        proof {
            assert(elems@ =~= seq![x0, x1, x2, x3, x4, x5]);
        }
        Vector { elems }
    }
}

impl<T: Element> Vector<T, 7> {
    /// Builds a seven-dimensional vector from its components.
    pub fn create(x0: T, x1: T, x2: T, x3: T, x4: T, x5: T, x6: T) -> (r: Self)
        ensures
            r@ == seq![x0, x1, x2, x3, x4, x5, x6],
    {
        let mut elems: Vec<T> = Vec::new();
        elems.push(x0);
        elems.push(x1);
        elems.push(x2);
        elems.push(x3);
        elems.push(x4);
        elems.push(x5);
        elems.push(x6);
        proof {
            assert(elems@ =~= seq![x0, x1, x2, x3, x4, x5, x6]);
        }
        Vector { elems }
    }
}

impl<T: Element> Vector<T, 8> {
    /// Builds an eight-dimensional vector from its components.
    pub fn create(x0: T, x1: T, x2: T, x3: T, x4: T, x5: T, x6: T, x7: T) -> (r: Self)
        ensures
            r@ == seq![x0, x1, x2, x3, x4, x5, x6, x7],
    {
        let mut elems: Vec<T> = Vec::new();
        elems.push(x0);
        elems.push(x1);
        elems.push(x2);
        elems.push(x3);
        elems.push(x4);
        elems.push(x5);
        elems.push(x6);
        elems.push(x7);
        proof {
            assert(elems@ =~= seq![x0, x1, x2, x3, x4, x5, x6, x7]);
        }
        Vector { elems }
    }
}

impl<T: Element> Vector<T, 9> {
    /// Builds a nine-dimensional vector from its components.
    pub fn create(x0: T, x1: T, x2: T, x3: T, x4: T, x5: T, x6: T, x7: T, x8: T) -> (r: Self)
        ensures
            r@ == seq![x0, x1, x2, x3, x4, x5, x6, x7, x8],
    {
        let mut elems: Vec<T> = Vec::new();
        elems.push(x0);
        elems.push(x1);
        elems.push(x2);
        elems.push(x3);
        elems.push(x4);
        elems.push(x5);
        elems.push(x6);
        elems.push(x7);
        elems.push(x8);
        proof {
            assert(elems@ =~= seq![x0, x1, x2, x3, x4, x5, x6, x7, x8]);
        }
        Vector { elems }
    }
}

impl<T: Element> Vector<T, 10> {
    /// Builds a ten-dimensional vector from its components.
    pub fn create(
        x0: T,
        x1: T,
        x2: T,
        x3: T,
        x4: T,
        x5: T,
        x6: T,
        x7: T,
        x8: T,
        x9: T,
    ) -> (r: Self)
        ensures
            r@ == seq![x0, x1, x2, x3, x4, x5, x6, x7, x8, x9],
    {
        let mut elems: Vec<T> = Vec::new();
        elems.push(x0);
        elems.push(x1);
        elems.push(x2);
        elems.push(x3);
        elems.push(x4);
        elems.push(x5);
        elems.push(x6);
        elems.push(x7);
        elems.push(x8);
        elems.push(x9);
        proof {
            assert(elems@ =~= seq![x0, x1, x2, x3, x4, x5, x6, x7, x8, x9]);
        }
        Vector { elems }
    }
}

} // verus!
