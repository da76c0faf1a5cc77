//! The element capability: what a type must provide so that vectors of it can
//! be built and combined.
//!
//! Every arithmetic primitive the vectors dispatch over is named by [`BinOp`]
//! or [`UnOp`].  A type joins the element set by implementing [`Element`]:
//! it supplies a zero and a one, an evaluator for each primitive together
//! with its mathematical meaning (`eval_s`, `un_s`), a definedness predicate
//! (`eval_ok`, e.g. ruling out division by zero), and proofs of the ring laws
//! that the vector-level algebra is derived from.  Arithmetic on the blessed
//! integer element types is modular: addition, subtraction, multiplication
//! and negation wrap around on overflow, so they are total and obey the laws
//! exactly.
use vstd::prelude::*;

verus! {

/// The binary arithmetic primitives a vector can apply element-wise.
#[derive(Clone, Copy)]
pub enum BinOp {
    Add,
    Sub,
    Mul,
    Div,
    Rem,
    BitAnd,
    BitOr,
    BitXor,
    Shl,
    Shr,
}

/// The unary arithmetic primitives a vector can apply element-wise.
#[derive(Clone, Copy)]
pub enum UnOp {
    Neg,
    Not,
}

/// The primitives that are defined on every pair of operands.
pub open spec fn total_op(op: BinOp) -> bool {
    match op {
        BinOp::Add | BinOp::Sub | BinOp::Mul | BinOp::BitAnd | BinOp::BitOr | BinOp::BitXor =>
            true,
        BinOp::Div | BinOp::Rem | BinOp::Shl | BinOp::Shr => false,
    }
}

/// A numeric type that vectors can hold and operate on.
pub trait Element: Sized + Copy {
    /// The additive identity.
    spec fn zero_s() -> Self;

    /// The multiplicative identity.
    spec fn one_s() -> Self;

    /// The value of the binary primitive `op` on `a` and `b`.
    spec fn eval_s(op: BinOp, a: Self, b: Self) -> Self;

    /// Whether `op` is defined on `a` and `b` (division and remainder need a
    /// usable divisor, shifts a shift amount below the bit width).
    spec fn eval_ok(op: BinOp, a: Self, b: Self) -> bool;

    /// The value of the unary primitive `op` on `a`.
    spec fn un_s(op: UnOp, a: Self) -> Self;

    fn zero() -> (r: Self)
        ensures
            r == Self::zero_s(),
    ;

    fn one() -> (r: Self)
        ensures
            r == Self::one_s(),
    ;

    fn apply(op: BinOp, a: Self, b: Self) -> (r: Self)
        requires
            Self::eval_ok(op, a, b),
        ensures
            r == Self::eval_s(op, a, b),
    ;

    fn apply_un(op: UnOp, a: Self) -> (r: Self)
        ensures
            r == Self::un_s(op, a),
    ;

    fn eq_el(a: Self, b: Self) -> (r: bool)
        ensures
            r == (a == b),
    ;

    /// Addition, subtraction, multiplication and the bit operations are total.
    proof fn lemma_total(op: BinOp, a: Self, b: Self)
        requires
            total_op(op),
        ensures
            Self::eval_ok(op, a, b),
    ;

    /// Addition commutes.
    proof fn lemma_add_comm(a: Self, b: Self)
        ensures
            Self::eval_s(BinOp::Add, a, b) == Self::eval_s(BinOp::Add, b, a),
    ;

    /// Addition associates.
    proof fn lemma_add_assoc(a: Self, b: Self, c: Self)
        ensures
            Self::eval_s(BinOp::Add, Self::eval_s(BinOp::Add, a, b), c) == Self::eval_s(
                BinOp::Add,
                a,
                Self::eval_s(BinOp::Add, b, c),
            ),
    ;

    /// Zero is the additive identity.
    proof fn lemma_add_zero(a: Self)
        ensures
            Self::eval_s(BinOp::Add, a, Self::zero_s()) == a,
    ;

    /// Negation is the additive inverse.
    proof fn lemma_add_neg(a: Self)
        ensures
            Self::eval_s(BinOp::Add, a, Self::un_s(UnOp::Neg, a)) == Self::zero_s(),
    ;

    /// Subtraction is addition of the negation.
    proof fn lemma_sub_is_add_neg(a: Self, b: Self)
        ensures
            Self::eval_s(BinOp::Sub, a, b) == Self::eval_s(BinOp::Add, a, Self::un_s(UnOp::Neg, b)),
    ;

    /// Multiplication commutes.
    proof fn lemma_mul_comm(a: Self, b: Self)
        ensures
            Self::eval_s(BinOp::Mul, a, b) == Self::eval_s(BinOp::Mul, b, a),
    ;

    /// One is the multiplicative identity.
    proof fn lemma_mul_one(a: Self)
        ensures
            Self::eval_s(BinOp::Mul, a, Self::one_s()) == a,
    ;

    /// Zero annihilates under multiplication.
    proof fn lemma_mul_zero(a: Self)
        ensures
            Self::eval_s(BinOp::Mul, a, Self::zero_s()) == Self::zero_s(),
    ;

    /// Multiplication distributes over addition on the right.
    proof fn lemma_mul_distrib(a: Self, b: Self, c: Self)
        ensures
            Self::eval_s(BinOp::Mul, Self::eval_s(BinOp::Add, a, b), c) == Self::eval_s(
                BinOp::Add,
                Self::eval_s(BinOp::Mul, a, c),
                Self::eval_s(BinOp::Mul, b, c),
            ),
    ;
}

/// Shorthand for element addition in specifications.
pub open spec fn add_s<T: Element>(a: T, b: T) -> T {
    T::eval_s(BinOp::Add, a, b)
}

/// Shorthand for element subtraction in specifications.
pub open spec fn sub_s<T: Element>(a: T, b: T) -> T {
    T::eval_s(BinOp::Sub, a, b)
}

/// Shorthand for element multiplication in specifications.
pub open spec fn mul_s<T: Element>(a: T, b: T) -> T {
    T::eval_s(BinOp::Mul, a, b)
}

/// Shorthand for element negation in specifications.
pub open spec fn neg_s<T: Element>(a: T) -> T {
    T::un_s(UnOp::Neg, a)
}

} // verus!
