//! Named operator entry points for the dynamic vector.
//!
//! Each arithmetic primitive gets a vector-vector form (dimension-checked,
//! returning [`DimensionMismatch`] on unequal operands), an in-place
//! assignment form, and — for the primitives the callers broadcast — a
//! vector-scalar form.  All of them are thin wrappers over the generic
//! dispatchers in [`super`]; the partial primitives (division, remainder,
//! shifts) ask their callers to rule out the undefined element pairs.
use super::{DimensionMismatch, Vector};
use crate::element::{BinOp, Element, UnOp};
use crate::ops::{
    lemma_vscalar_total, lemma_vzip_total, vscalar_ok, vscalar_s, vun_s, vzip_ok, vzip_s,
};
use vstd::prelude::*;

verus! {

impl<T: Element> Vector<T> {
    /// Element-wise sum of two vectors of equal dimension.
    pub fn add(&self, other: &Vector<T>) -> (r: Result<Vector<T>, DimensionMismatch>)
        ensures
            r is Ok <==> self@.len() == other@.len(),
            r matches Ok(v) ==> v@ == vzip_s(BinOp::Add, self@, other@),
    {
        proof {
            lemma_vzip_total(BinOp::Add, self@, other@);
        }
        self.bin_op(BinOp::Add, other)
    }

    /// Element-wise difference of two vectors of equal dimension.
    pub fn sub(&self, other: &Vector<T>) -> (r: Result<Vector<T>, DimensionMismatch>)
        ensures
            r is Ok <==> self@.len() == other@.len(),
            r matches Ok(v) ==> v@ == vzip_s(BinOp::Sub, self@, other@),
    {
        proof {
            lemma_vzip_total(BinOp::Sub, self@, other@);
        }
        self.bin_op(BinOp::Sub, other)
    }

    /// Element-wise product of two vectors of equal dimension.
    pub fn mul(&self, other: &Vector<T>) -> (r: Result<Vector<T>, DimensionMismatch>)
        ensures
            r is Ok <==> self@.len() == other@.len(),
            r matches Ok(v) ==> v@ == vzip_s(BinOp::Mul, self@, other@),
    {
        proof {
            lemma_vzip_total(BinOp::Mul, self@, other@);
        }
        self.bin_op(BinOp::Mul, other)
    }

    /// Element-wise quotient; every divisor pair must be usable.
    pub fn div(&self, other: &Vector<T>) -> (r: Result<Vector<T>, DimensionMismatch>)
        requires
            self@.len() == other@.len() ==> vzip_ok(BinOp::Div, self@, other@),
        ensures
            r is Ok <==> self@.len() == other@.len(),
            r matches Ok(v) ==> v@ == vzip_s(BinOp::Div, self@, other@),
    {
        self.bin_op(BinOp::Div, other)
    }

    /// Element-wise remainder; every divisor pair must be usable.
    pub fn rem(&self, other: &Vector<T>) -> (r: Result<Vector<T>, DimensionMismatch>)
        requires
            self@.len() == other@.len() ==> vzip_ok(BinOp::Rem, self@, other@),
        ensures
            r is Ok <==> self@.len() == other@.len(),
            r matches Ok(v) ==> v@ == vzip_s(BinOp::Rem, self@, other@),
    {
        self.bin_op(BinOp::Rem, other)
    }

    /// Element-wise bitwise and.
    pub fn bitand(&self, other: &Vector<T>) -> (r: Result<Vector<T>, DimensionMismatch>)
        ensures
            r is Ok <==> self@.len() == other@.len(),
            r matches Ok(v) ==> v@ == vzip_s(BinOp::BitAnd, self@, other@),
    {
        proof {
            lemma_vzip_total(BinOp::BitAnd, self@, other@);
        }
        self.bin_op(BinOp::BitAnd, other)
    }

    /// Element-wise bitwise or.
    pub fn bitor(&self, other: &Vector<T>) -> (r: Result<Vector<T>, DimensionMismatch>)
        ensures
            r is Ok <==> self@.len() == other@.len(),
            r matches Ok(v) ==> v@ == vzip_s(BinOp::BitOr, self@, other@),
    {
        proof {
            lemma_vzip_total(BinOp::BitOr, self@, other@);
        }
        self.bin_op(BinOp::BitOr, other)
    }

    /// Element-wise bitwise exclusive or.
    pub fn bitxor(&self, other: &Vector<T>) -> (r: Result<Vector<T>, DimensionMismatch>)
        ensures
            r is Ok <==> self@.len() == other@.len(),
            r matches Ok(v) ==> v@ == vzip_s(BinOp::BitXor, self@, other@),
    {
        proof {
            lemma_vzip_total(BinOp::BitXor, self@, other@);
        }
        self.bin_op(BinOp::BitXor, other)
    }

    /// Element-wise left shift; every shift amount must be below the width.
    pub fn shl(&self, other: &Vector<T>) -> (r: Result<Vector<T>, DimensionMismatch>)
        requires
            self@.len() == other@.len() ==> vzip_ok(BinOp::Shl, self@, other@),
        ensures
            r is Ok <==> self@.len() == other@.len(),
            r matches Ok(v) ==> v@ == vzip_s(BinOp::Shl, self@, other@),
    {
        self.bin_op(BinOp::Shl, other)
    }

    /// Element-wise right shift; every shift amount must be below the width.
    pub fn shr(&self, other: &Vector<T>) -> (r: Result<Vector<T>, DimensionMismatch>)
        requires
            self@.len() == other@.len() ==> vzip_ok(BinOp::Shr, self@, other@),
        ensures
            r is Ok <==> self@.len() == other@.len(),
            r matches Ok(v) ==> v@ == vzip_s(BinOp::Shr, self@, other@),
    {
        self.bin_op(BinOp::Shr, other)
    }

    /// In-place element-wise sum; the receiver is unchanged on a mismatch.
    pub fn add_assign(&mut self, other: &Vector<T>) -> (r: Result<(), DimensionMismatch>)
        ensures
            r is Ok <==> old(self)@.len() == other@.len(),
            r is Ok ==> final(self)@ == vzip_s(BinOp::Add, old(self)@, other@),
            r is Err ==> final(self)@ == old(self)@,
    {
        proof {
            lemma_vzip_total(BinOp::Add, old(self)@, other@);
        }
        self.bin_op_assign(BinOp::Add, other)
    }

    /// In-place element-wise difference; the receiver is unchanged on a mismatch.
    pub fn sub_assign(&mut self, other: &Vector<T>) -> (r: Result<(), DimensionMismatch>)
        ensures
            r is Ok <==> old(self)@.len() == other@.len(),
            r is Ok ==> final(self)@ == vzip_s(BinOp::Sub, old(self)@, other@),
            r is Err ==> final(self)@ == old(self)@,
    {
        proof {
            lemma_vzip_total(BinOp::Sub, old(self)@, other@);
        }
        self.bin_op_assign(BinOp::Sub, other)
    }

    /// In-place element-wise product; the receiver is unchanged on a mismatch.
    pub fn mul_assign(&mut self, other: &Vector<T>) -> (r: Result<(), DimensionMismatch>)
        ensures
            r is Ok <==> old(self)@.len() == other@.len(),
            r is Ok ==> final(self)@ == vzip_s(BinOp::Mul, old(self)@, other@),
            r is Err ==> final(self)@ == old(self)@,
    {
        proof {
            lemma_vzip_total(BinOp::Mul, old(self)@, other@);
        }
        self.bin_op_assign(BinOp::Mul, other)
    }

    /// In-place element-wise quotient; every divisor pair must be usable.
    pub fn div_assign(&mut self, other: &Vector<T>) -> (r: Result<(), DimensionMismatch>)
        requires
            old(self)@.len() == other@.len() ==> vzip_ok(BinOp::Div, old(self)@, other@),
        ensures
            r is Ok <==> old(self)@.len() == other@.len(),
            r is Ok ==> final(self)@ == vzip_s(BinOp::Div, old(self)@, other@),
            r is Err ==> final(self)@ == old(self)@,
    {
        self.bin_op_assign(BinOp::Div, other)
    }

    /// Broadcasts multiplication by the scalar `k` over every element.
    pub fn mul_scalar(&self, k: T) -> (r: Vector<T>)
        ensures
            r@ == vscalar_s(BinOp::Mul, self@, k),
    {
        proof {
            lemma_vscalar_total(BinOp::Mul, self@, k);
        }
        self.scalar_op(BinOp::Mul, k)
    }

    /// Broadcasts division by the scalar `k` over every element; `k` must be
    /// a usable divisor for each of them.
    pub fn div_scalar(&self, k: T) -> (r: Vector<T>)
        requires
            vscalar_ok(BinOp::Div, self@, k),
        ensures
            r@ == vscalar_s(BinOp::Div, self@, k),
    {
        self.scalar_op(BinOp::Div, k)
    }

    /// Adds `value` to every element, consuming the vector.
    pub fn shift(self, value: T) -> (r: Vector<T>)
        ensures
            r@ == vscalar_s(BinOp::Add, self@, value),
    {
        proof {
            lemma_vscalar_total(BinOp::Add, self@, value);
        }
        self.scalar_op(BinOp::Add, value)
    }

    /// Adds `value` to every element of a borrowed vector.
    pub fn shift_ref(&self, value: T) -> (r: Vector<T>)
        ensures
            r@ == vscalar_s(BinOp::Add, self@, value),
    {
        proof {
            lemma_vscalar_total(BinOp::Add, self@, value);
        }
        self.scalar_op(BinOp::Add, value)
    }

    /// Element-wise negation.
    pub fn neg(&self) -> (r: Vector<T>)
        ensures
            r@ == vun_s(UnOp::Neg, self@),
    {
        self.un_op(UnOp::Neg)
    }

    /// Element-wise bitwise complement.
    pub fn not(&self) -> (r: Vector<T>)
        ensures
            r@ == vun_s(UnOp::Not, self@),
    {
        self.un_op(UnOp::Not)
    }
}

} // verus!
