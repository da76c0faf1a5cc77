//! The dynamically-sized vector.
//!
//! A `Vector<T>` owns an ordered sequence of elements; its dimension is fixed
//! when it is built.  Vector-vector operations check dimension equality at
//! call time and report a [`DimensionMismatch`] instead of combining operands
//! of unequal dimension; scalar broadcasts and unary operations always
//! succeed.  Operations never mutate their operands except the explicitly
//! named assignment forms, which mutate exactly the receiver.
use crate::element::{BinOp, Element, UnOp};
use crate::ops::{
    copy_exec, eq_exec, scalar_exec, un_exec, vscalar_ok, vscalar_s, vun_s, vzip_ok, vzip_s,
    zero_exec, zip_assign_exec, zip_exec,
};
use vstd::prelude::*;

pub mod iter;
pub mod vector_impl;
pub mod vector_ops;

verus! {

/// A vector-vector operation received operands of unequal dimension.
#[derive(Clone, Copy, Debug, PartialEq, Eq, Structural)]
pub struct DimensionMismatch;

/// An ordered sequence of elements whose dimension is a runtime value.
#[derive(Debug)]
pub struct Vector<T> {
    elems: Vec<T>,
}

impl<T> View for Vector<T> {
    type V = Seq<T>;

    closed spec fn view(&self) -> Seq<T> {
        self.elems@
    }
}

impl<T: Element> Vector<T> {
    /// Builds a vector of `dim` zero elements.
    pub fn new(dim: usize) -> (r: Self)
        ensures
            r@.len() == dim,
            forall|i: int| 0 <= i < dim ==> r@[i] == T::zero_s(),
    {
        Vector { elems: zero_exec(dim) }
    }

    /// Wraps an existing element buffer; the dimension is its length.
    pub fn from_vec(value: Vec<T>) -> (r: Self)
        ensures
            r@ == value@,
    {
        Vector { elems: value }
    }

    /// Copies a slice into a fresh vector; the dimension is its length.
    pub fn from_slice(value: &[T]) -> (r: Self)
        ensures
            r@ == value@,
    {
        Vector { elems: vstd::slice::slice_to_vec(value) }
    }

    /// The dimension (element count) of the vector.
    pub fn dim(&self) -> (r: usize)
        ensures
            r == self@.len(),
    {
        self.elems.len()
    }

    /// The element at `index`; out-of-range access is a caller error.
    pub fn get(&self, index: usize) -> (r: T)
        requires
            index < self@.len(),
        ensures
            r == self@[index as int],
    {
        self.elems[index]
    }

    /// Replaces the element at `index`, keeping all others.
    pub fn set(&mut self, index: usize, value: T)
        requires
            index < old(self)@.len(),
        ensures
            final(self)@ == old(self)@.update(index as int, value),
    {
        self.elems[index] = value;
    }

    /// The first component, `self[0]`.
    pub fn x(&self) -> (r: T)
        requires
            self@.len() >= 1,
        ensures
            r == self@[0],
    {
        self.get(0)
    }

    /// The second component, `self[1]`.
    pub fn y(&self) -> (r: T)
        requires
            self@.len() >= 2,
        ensures
            r == self@[1],
    {
        self.get(1)
    }

    /// The third component, `self[2]`.
    pub fn z(&self) -> (r: T)
        requires
            self@.len() >= 3,
        ensures
            r == self@[2],
    {
        self.get(2)
    }

    /// The radius of a polar pair, `self[0]`.
    pub fn r(&self) -> (r: T)
        requires
            self@.len() >= 1,
        ensures
            r == self@[0],
    {
        self.get(0)
    }

    /// The angle of a polar pair, `self[1]`.
    pub fn theta(&self) -> (r: T)
        requires
            self@.len() >= 2,
        ensures
            r == self@[1],
    {
        self.get(1)
    }

    /// A copy of the elements in index order.
    pub fn to_vec(&self) -> (r: Vec<T>)
        ensures
            r@ == self@,
    {
        copy_exec(&self.elems)
    }

    /// The elements in index order, consuming the vector.
    pub fn into_vec(self) -> (r: Vec<T>)
        ensures
            r@ == self@,
    {
        self.elems
    }

    /// Combines the vectors pairwise with `op`, checking dimensions first.
    pub fn bin_op(&self, op: BinOp, other: &Vector<T>) -> (r: Result<Vector<T>, DimensionMismatch>)
        requires
            self@.len() == other@.len() ==> vzip_ok(op, self@, other@),
        ensures
            r is Ok <==> self@.len() == other@.len(),
            r matches Ok(v) ==> v@ == vzip_s(op, self@, other@),
    {
        if self.elems.len() != other.elems.len() {
            Err(DimensionMismatch)
        } else {
            Ok(Vector { elems: zip_exec(op, &self.elems, &other.elems) })
        }
    }

    /// Combines the vectors pairwise with `op` in place, checking dimensions
    /// first; on a mismatch the receiver is left unchanged.
    pub fn bin_op_assign(&mut self, op: BinOp, other: &Vector<T>) -> (r: Result<
        (),
        DimensionMismatch,
    >)
        requires
            old(self)@.len() == other@.len() ==> vzip_ok(op, old(self)@, other@),
        ensures
            r is Ok <==> old(self)@.len() == other@.len(),
            r is Ok ==> final(self)@ == vzip_s(op, old(self)@, other@),
            r is Err ==> final(self)@ == old(self)@,
    {
        if self.elems.len() != other.elems.len() {
            Err(DimensionMismatch)
        } else {
            zip_assign_exec(op, &mut self.elems, &other.elems);
            Ok(())
        }
    }

    /// Broadcasts `op` with the scalar `k` over every element.
    pub fn scalar_op(&self, op: BinOp, k: T) -> (r: Vector<T>)
        requires
            vscalar_ok(op, self@, k),
        ensures
            r@ == vscalar_s(op, self@, k),
    {
        Vector { elems: scalar_exec(op, &self.elems, k) }
    }

    /// Applies the unary `op` to every element.
    pub fn un_op(&self, op: UnOp) -> (r: Vector<T>)
        ensures
            r@ == vun_s(op, self@),
    {
        Vector { elems: un_exec(op, &self.elems) }
    }
}

} // verus!

verus! {

impl<T: Element> PartialEq for Vector<T> {
    /// Two vectors are equal exactly when they have equal dimension and equal
    /// elements in the same order.
    fn eq(&self, other: &Self) -> (r: bool) {
        eq_exec(&self.elems, &other.elems)
    }
}

impl<T: Element> vstd::std_specs::cmp::PartialEqSpecImpl for Vector<T> {
    open spec fn obeys_eq_spec() -> bool {
        true
    }

    open spec fn eq_spec(&self, other: &Self) -> bool {
        self@ == other@
    }
}

} // verus!
