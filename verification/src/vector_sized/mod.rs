//! The statically-sized vector.
//!
//! A `Vector<T, N>` carries its dimension `N` in the type, so a vector-vector
//! operation only type-checks when both operands declare the same dimension:
//! mismatches are rejected before anything runs, and no operation here can
//! fail at run time.  Only construction from a source of unknown run-time
//! length (a slice, a buffer, a deserialized sequence) must validate the
//! length, and reports [`TryFromVectorError`] when it is not `N`.
use crate::element::{BinOp, Element, UnOp};
use crate::ops::{
    copy_exec, eq_exec, scalar_exec, un_exec, vscalar_ok, vscalar_s, vun_s, vzip_ok, vzip_s,
    zero_exec, zip_exec,
};
use vstd::prelude::*;

pub mod iter;
pub mod vector_impl;
pub mod vector_impl_spec;
pub mod vector_ops;

verus! {

/// A statically-sized vector was built from a sequence whose length is not
/// the type's declared dimension.
#[derive(Clone, Copy, Debug, PartialEq, Eq, Structural)]
pub struct TryFromVectorError;

/// An ordered sequence of elements whose dimension `N` is part of the type.
#[derive(Debug)]
pub struct Vector<T, const N: usize> {
    elems: Vec<T>,
}

impl<T, const N: usize> View for Vector<T, N> {
    type V = Seq<T>;

    closed spec fn view(&self) -> Seq<T> {
        self.elems@
    }
}

impl<T, const N: usize> Vector<T, N> {
    /// The backing storage always holds exactly `N` elements.
    #[verifier::type_invariant]
    spec fn wf(self) -> bool {
        self.elems@.len() == N
    }

}

impl<T: Element, const N: usize> Vector<T, N> {
    /// Builds the vector of `N` zero elements.
    pub fn new() -> (r: Self)
        ensures
            r@.len() == N,
            forall|i: int| 0 <= i < N ==> r@[i] == T::zero_s(),
    {
        Vector { elems: zero_exec(N) }
    }

    /// Validates that the slice has exactly `N` elements and copies it into a
    /// vector; fails otherwise.
    pub fn try_from(value: &[T]) -> (r: Result<Self, TryFromVectorError>)
        ensures
            r is Ok <==> value@.len() == N,
            r matches Ok(v) ==> v@ == value@,
    {
        if value.len() == N {
            Ok(Vector { elems: vstd::slice::slice_to_vec(value) })
        } else {
            Err(TryFromVectorError)
        }
    }

    /// Validates that the buffer has exactly `N` elements and wraps it; fails
    /// otherwise.
    pub fn try_from_vec(value: Vec<T>) -> (r: Result<Self, TryFromVectorError>)
        ensures
            r is Ok <==> value@.len() == N,
            r matches Ok(v) ==> v@ == value@,
    {
        if value.len() == N {
            Ok(Vector { elems: value })
        } else {
            Err(TryFromVectorError)
        }
    }

    /// The dimension of the vector: always `N`.
    pub fn dim(&self) -> (r: usize)
        ensures
            r == N,
            r == self@.len(),
    {
        proof {
            use_type_invariant(self);
        }
        N
    }

    /// The element at `index`; out-of-range access is a caller error.
    pub fn get(&self, index: usize) -> (r: T)
        requires
            index < N,
        ensures
            r == self@[index as int],
    {
        proof {
            use_type_invariant(self);
        }
        self.elems[index]
    }

    /// Replaces the element at `index`, keeping all others.
    pub fn set(&mut self, index: usize, value: T)
        requires
            index < N,
        ensures
            final(self)@ == old(self)@.update(index as int, value),
    {
        proof {
            use_type_invariant(&*self);
        }
        self.elems[index] = value;
    }

    /// The first component, `self[0]`.
    pub fn x(&self) -> (r: T)
        requires
            N >= 1,
        ensures
            r == self@[0],
    {
        self.get(0)
    }

    /// The second component, `self[1]`.
    pub fn y(&self) -> (r: T)
        requires
            N >= 2,
        ensures
            r == self@[1],
    {
        self.get(1)
    }

    /// The third component, `self[2]`.
    pub fn z(&self) -> (r: T)
        requires
            N >= 3,
        ensures
            r == self@[2],
    {
        self.get(2)
    }

    /// The radius of a polar pair, `self[0]`.
    pub fn r(&self) -> (r: T)
        requires
            N >= 1,
        ensures
            r == self@[0],
    {
        self.get(0)
    }

    /// The angle of a polar pair, `self[1]`.
    pub fn theta(&self) -> (r: T)
        requires
            N >= 2,
        ensures
            r == self@[1],
    {
        self.get(1)
    }

    /// A copy of the elements in index order; this is the vector's
    /// serialized form, a plain sequence with no wrapper metadata.
    pub fn to_vec(&self) -> (r: Vec<T>)
        ensures
            r@ == self@,
            r@.len() == N,
    {
        proof {
            use_type_invariant(self);
        }
        copy_exec(&self.elems)
    }

    /// The elements in index order, consuming the vector.
    pub fn into_vec(self) -> (r: Vec<T>)
        ensures
            r@ == self@,
            r@.len() == N,
    {
        proof {
            use_type_invariant(&self);
        }
        self.elems
    }

    /// Combines the vectors pairwise with `op`; equal dimension is
    /// guaranteed by the type.
    pub fn bin_op(&self, op: BinOp, other: &Vector<T, N>) -> (r: Vector<T, N>)
        requires
            vzip_ok(op, self@, other@),
        ensures
            r@ == vzip_s(op, self@, other@),
    {
        proof {
            use_type_invariant(self);
            use_type_invariant(other);
        }
        Vector { elems: zip_exec(op, &self.elems, &other.elems) }
    }

    /// Combines the vectors pairwise with `op` in place, mutating exactly the
    /// receiver.
    pub fn bin_op_assign(&mut self, op: BinOp, other: &Vector<T, N>)
        requires
            vzip_ok(op, old(self)@, other@),
        ensures
            final(self)@ == vzip_s(op, old(self)@, other@),
    {
        proof {
            use_type_invariant(&*self);
            use_type_invariant(other);
        }
        let combined = zip_exec(op, &self.elems, &other.elems);
        self.elems = combined;
    }

    /// Broadcasts `op` with the scalar `k` over every element.
    pub fn scalar_op(&self, op: BinOp, k: T) -> (r: Vector<T, N>)
        requires
            vscalar_ok(op, self@, k),
        ensures
            r@ == vscalar_s(op, self@, k),
    {
        proof {
            use_type_invariant(self);
        }
        Vector { elems: scalar_exec(op, &self.elems, k) }
    }

    /// Applies the unary `op` to every element.
    pub fn un_op(&self, op: UnOp) -> (r: Vector<T, N>)
        ensures
            r@ == vun_s(op, self@),
    {
        proof {
            use_type_invariant(self);
        }
        Vector { elems: un_exec(op, &self.elems) }
    }
}

} // verus!

verus! {

/// Yields a copy of one value a fixed number of times; a finite source for
/// filling fixed-size storage.
pub struct RepeatN<T> {
    value: T,
    count: usize,
}

impl<T> RepeatN<T> {
    /// The value the source yields.
    pub closed spec fn item(&self) -> T {
        self.value
    }

    /// How many copies are still to come.
    pub closed spec fn remaining(&self) -> int {
        self.count as int
    }
}

impl<T: Element> RepeatN<T> {
    /// A source that yields `value` exactly `count` times.
    pub fn new(value: T, count: usize) -> (r: Self)
        ensures
            r.item() == value,
            r.remaining() == count,
    {
        RepeatN { value, count }
    }

    /// Yields one copy, or `None` once the count is used up.
    pub fn next(&mut self) -> (r: Option<T>)
        ensures
            final(self).item() == old(self).item(),
            old(self).remaining() > 0 ==> {
                &&& r == Some(old(self).item())
                &&& final(self).remaining() == old(self).remaining() - 1
            },
            old(self).remaining() == 0 ==> {
                &&& r is None
                &&& final(self).remaining() == 0
            },
    {
        if self.count > 0 {
            self.count = self.count - 1;
            Some(self.value)
        } else {
            None
        }
    }

    /// The exact number of copies still to come, as a lower and upper bound.
    pub fn size_hint(&self) -> (r: (usize, Option<usize>))
        ensures
            r.0 == self.remaining(),
            r.1 == Some(r.0),
    {
        (self.count, Some(self.count))
    }
}

/// Yields the results of calling a producer a fixed number of times; a
/// finite source for filling fixed-size storage with generated values.
pub struct RepeatNWith<F> {
    producer: F,
    count: usize,
}

impl<F> RepeatNWith<F> {
    /// The producer the source draws from.
    pub closed spec fn fun(&self) -> F {
        self.producer
    }

    /// How many draws are still to come.
    pub closed spec fn remaining(&self) -> int {
        self.count as int
    }
}

impl<T, F: Fn() -> T> RepeatNWith<F> {
    /// A source that draws from `producer` exactly `count` times.
    pub fn new(producer: F, count: usize) -> (r: Self)
        ensures
            r.fun() == producer,
            r.remaining() == count,
    {
        RepeatNWith { producer, count }
    }

    /// Draws one value, or `None` once the count is used up.
    pub fn next(&mut self) -> (r: Option<T>)
        requires
            call_requires(old(self).fun(), ()),
        ensures
            final(self).fun() == old(self).fun(),
            old(self).remaining() > 0 ==> {
                &&& r matches Some(v) && call_ensures(old(self).fun(), (), v)
                &&& final(self).remaining() == old(self).remaining() - 1
            },
            old(self).remaining() == 0 ==> {
                &&& r is None
                &&& final(self).remaining() == 0
            },
    {
        if self.count > 0 {
            self.count = self.count - 1;
            Some((self.producer)())
        } else {
            None
        }
    }

    /// The exact number of draws still to come, as a lower and upper bound.
    pub fn size_hint(&self) -> (r: (usize, Option<usize>))
        ensures
            r.0 == self.remaining(),
            r.1 == Some(r.0),
    {
        (self.count, Some(self.count))
    }
}

} // verus!

verus! {

impl<T: Element, const N: usize> PartialEq for Vector<T, N> {
    /// Two vectors are equal exactly when their elements agree in order;
    /// their dimensions agree already by the type.
    fn eq(&self, other: &Self) -> (r: bool) {
        eq_exec(&self.elems, &other.elems)
    }
}

impl<T: Element, const N: usize> vstd::std_specs::cmp::PartialEqSpecImpl for Vector<T, N> {
    open spec fn obeys_eq_spec() -> bool {
        true
    }

    open spec fn eq_spec(&self, other: &Self) -> bool {
        self@ == other@
    }
}

} // verus!

verus! {

/// Round trip of the serialized form.  A statically-sized vector hands out
/// exactly its element sequence (`to_vec`), which has the declared dimension;
/// the length validation of `try_from_vec` therefore accepts it — it rejects
/// exactly the sequences of any other length — and the vector it rebuilds
/// carries the original elements unchanged.
pub proof fn lemma_serialized_roundtrip<T: Element, const N: usize>(
    original: Seq<T>,
    serialized: Seq<T>,
    rebuilt: Seq<T>,
)
    requires
        original.len() == N,
        serialized == original,
        rebuilt == serialized,
    ensures
        serialized.len() == N,
        rebuilt == original,
{
}

} // verus!
