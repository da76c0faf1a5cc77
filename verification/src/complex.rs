//! A complex element type, generic over the element set.
//!
//! `Complex<T>` pairs a real and an imaginary part and joins the element set
//! whenever `T` does, so vectors can hold complex elements with the same
//! verified operations and laws as the plain ones.  Addition, subtraction,
//! multiplication, negation and the bit operations work component-wise by the
//! usual complex formulas over `T`'s arithmetic; the ring laws are derived
//! from `T`'s, with no ordering or rounding required.  Division, remainder
//! and shifts are not offered for complex elements: their definedness
//! predicate is false, so no vector operation can reach them.
use crate::element::{add_s, mul_s, neg_s, sub_s, BinOp, Element, UnOp};
use crate::laws::{
    lemma_add_exchange, lemma_add_zero_left, lemma_sub_add_split, lemma_sub_zero,
};
use vstd::prelude::*;

verus! {

/// A complex number over the element type `T`.
#[derive(Clone, Copy, Debug, PartialEq, Eq)]
pub struct Complex<T> {
    /// The real part.
    pub re: T,
    /// The imaginary part.
    pub im: T,
}

impl<T: Element> Element for Complex<T> {
    open spec fn zero_s() -> Complex<T> {
        Complex { re: T::zero_s(), im: T::zero_s() }
    }

    open spec fn one_s() -> Complex<T> {
        Complex { re: T::one_s(), im: T::zero_s() }
    }

    open spec fn eval_s(op: BinOp, a: Complex<T>, b: Complex<T>) -> Complex<T> {
        match op {
            BinOp::Add => Complex { re: add_s(a.re, b.re), im: add_s(a.im, b.im) },
            BinOp::Sub => Complex { re: sub_s(a.re, b.re), im: sub_s(a.im, b.im) },
            BinOp::Mul => Complex {
                re: sub_s(mul_s(a.re, b.re), mul_s(a.im, b.im)),
                im: add_s(mul_s(a.re, b.im), mul_s(a.im, b.re)),
            },
            BinOp::BitAnd => Complex {
                re: T::eval_s(BinOp::BitAnd, a.re, b.re),
                im: T::eval_s(BinOp::BitAnd, a.im, b.im),
            },
            BinOp::BitOr => Complex {
                re: T::eval_s(BinOp::BitOr, a.re, b.re),
                im: T::eval_s(BinOp::BitOr, a.im, b.im),
            },
            BinOp::BitXor => Complex {
                re: T::eval_s(BinOp::BitXor, a.re, b.re),
                im: T::eval_s(BinOp::BitXor, a.im, b.im),
            },
            BinOp::Div | BinOp::Rem | BinOp::Shl | BinOp::Shr => a,
        }
    }

    open spec fn eval_ok(op: BinOp, a: Complex<T>, b: Complex<T>) -> bool {
        crate::element::total_op(op)
    }

    open spec fn un_s(op: UnOp, a: Complex<T>) -> Complex<T> {
        match op {
            UnOp::Neg => Complex { re: neg_s(a.re), im: neg_s(a.im) },
            UnOp::Not => Complex { re: T::un_s(UnOp::Not, a.re), im: T::un_s(UnOp::Not, a.im) },
        }
    }

    fn zero() -> Complex<T> {
        Complex { re: T::zero(), im: T::zero() }
    }

    fn one() -> Complex<T> {
        Complex { re: T::one(), im: T::zero() }
    }

    fn apply(op: BinOp, a: Complex<T>, b: Complex<T>) -> Complex<T> {
        match op {
            BinOp::Add => {
                proof {
                    T::lemma_total(BinOp::Add, a.re, b.re);
                    T::lemma_total(BinOp::Add, a.im, b.im);
                }
                Complex { re: T::apply(BinOp::Add, a.re, b.re), im: T::apply(BinOp::Add, a.im, b.im) }
            },
            BinOp::Sub => {
                proof {
                    T::lemma_total(BinOp::Sub, a.re, b.re);
                    T::lemma_total(BinOp::Sub, a.im, b.im);
                }
                Complex { re: T::apply(BinOp::Sub, a.re, b.re), im: T::apply(BinOp::Sub, a.im, b.im) }
            },
            BinOp::Mul => {
                proof {
                    T::lemma_total(BinOp::Mul, a.re, b.re);
                    T::lemma_total(BinOp::Mul, a.im, b.im);
                    T::lemma_total(BinOp::Mul, a.re, b.im);
                    T::lemma_total(BinOp::Mul, a.im, b.re);
                }
                let rr = T::apply(BinOp::Mul, a.re, b.re);
                let ii = T::apply(BinOp::Mul, a.im, b.im);
                let ri = T::apply(BinOp::Mul, a.re, b.im);
                let ir = T::apply(BinOp::Mul, a.im, b.re);
                proof {
                    T::lemma_total(BinOp::Sub, rr, ii);
                    T::lemma_total(BinOp::Add, ri, ir);
                }
                Complex { re: T::apply(BinOp::Sub, rr, ii), im: T::apply(BinOp::Add, ri, ir) }
            },
            BinOp::BitAnd => {
                proof {
                    T::lemma_total(BinOp::BitAnd, a.re, b.re);
                    T::lemma_total(BinOp::BitAnd, a.im, b.im);
                }
                Complex {
                    re: T::apply(BinOp::BitAnd, a.re, b.re),
                    im: T::apply(BinOp::BitAnd, a.im, b.im),
                }
            },
            BinOp::BitOr => {
                proof {
                    T::lemma_total(BinOp::BitOr, a.re, b.re);
                    T::lemma_total(BinOp::BitOr, a.im, b.im);
                }
                Complex {
                    re: T::apply(BinOp::BitOr, a.re, b.re),
                    im: T::apply(BinOp::BitOr, a.im, b.im),
                }
            },
            BinOp::BitXor => {
                proof {
                    T::lemma_total(BinOp::BitXor, a.re, b.re);
                    T::lemma_total(BinOp::BitXor, a.im, b.im);
                }
                Complex {
                    re: T::apply(BinOp::BitXor, a.re, b.re),
                    im: T::apply(BinOp::BitXor, a.im, b.im),
                }
            },
            BinOp::Div | BinOp::Rem | BinOp::Shl | BinOp::Shr => {
                proof {
                    assert(false);
                }
                a
            },
        }
    }

    fn apply_un(op: UnOp, a: Complex<T>) -> Complex<T> {
        match op {
            UnOp::Neg => Complex {
                re: T::apply_un(UnOp::Neg, a.re),
                im: T::apply_un(UnOp::Neg, a.im),
            },
            UnOp::Not => Complex {
                re: T::apply_un(UnOp::Not, a.re),
                im: T::apply_un(UnOp::Not, a.im),
            },
        }
    }

    fn eq_el(a: Complex<T>, b: Complex<T>) -> bool {
        T::eq_el(a.re, b.re) && T::eq_el(a.im, b.im)
    }

    proof fn lemma_total(op: BinOp, a: Complex<T>, b: Complex<T>) {
    }

    proof fn lemma_add_comm(a: Complex<T>, b: Complex<T>) {
        T::lemma_add_comm(a.re, b.re);
        T::lemma_add_comm(a.im, b.im);
    }

    proof fn lemma_add_assoc(a: Complex<T>, b: Complex<T>, c: Complex<T>) {
        T::lemma_add_assoc(a.re, b.re, c.re);
        T::lemma_add_assoc(a.im, b.im, c.im);
    }

    proof fn lemma_add_zero(a: Complex<T>) {
        T::lemma_add_zero(a.re);
        T::lemma_add_zero(a.im);
    }

    proof fn lemma_add_neg(a: Complex<T>) {
        T::lemma_add_neg(a.re);
        T::lemma_add_neg(a.im);
    }

    proof fn lemma_sub_is_add_neg(a: Complex<T>, b: Complex<T>) {
        T::lemma_sub_is_add_neg(a.re, b.re);
        T::lemma_sub_is_add_neg(a.im, b.im);
    }

    proof fn lemma_mul_comm(a: Complex<T>, b: Complex<T>) {
        T::lemma_mul_comm(a.re, b.re);
        T::lemma_mul_comm(a.im, b.im);
        T::lemma_mul_comm(a.re, b.im);
        T::lemma_mul_comm(a.im, b.re);
        T::lemma_add_comm(mul_s(a.re, b.im), mul_s(a.im, b.re));
    }

    proof fn lemma_mul_one(a: Complex<T>) {
        T::lemma_mul_one(a.re);
        T::lemma_mul_zero(a.re);
        T::lemma_mul_one(a.im);
        T::lemma_mul_zero(a.im);
        lemma_sub_zero::<T>(a.re);
        lemma_add_zero_left::<T>(a.im);
    }

    proof fn lemma_mul_zero(a: Complex<T>) {
        T::lemma_mul_zero(a.re);
        T::lemma_mul_zero(a.im);
        lemma_sub_zero::<T>(T::zero_s());
        T::lemma_add_zero(T::zero_s());
    }

    proof fn lemma_mul_distrib(a: Complex<T>, b: Complex<T>, c: Complex<T>) {
        // real part: ((a.re + b.re) c.re) - ((a.im + b.im) c.im)
        T::lemma_mul_distrib(a.re, b.re, c.re);
        T::lemma_mul_distrib(a.im, b.im, c.im);
        lemma_sub_add_split::<T>(
            mul_s(a.re, c.re),
            mul_s(b.re, c.re),
            mul_s(a.im, c.im),
            mul_s(b.im, c.im),
        );
        // imaginary part: ((a.re + b.re) c.im) + ((a.im + b.im) c.re)
        T::lemma_mul_distrib(a.re, b.re, c.im);
        T::lemma_mul_distrib(a.im, b.im, c.re);
        lemma_add_exchange::<T>(
            mul_s(a.re, c.im),
            mul_s(b.re, c.im),
            mul_s(a.im, c.re),
            mul_s(b.im, c.re),
        );
    }
}

} // verus!
