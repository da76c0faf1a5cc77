//! The algebraic laws the vector operations obey, proved once for every
//! element type from the ring laws of [`crate::element::Element`].
//!
//! The laws are stated over the specification functions that the executable
//! operations are contracted to compute (`vzip_s`, `sum_s`, `dot_s`,
//! `lerp_s`), so they hold of every vector the library can build.
use crate::element::{add_s, neg_s, sub_s, BinOp, Element};
use crate::ops::{dot_s, lerp_s, sum_s, vscalar_s, vzip_s};
use vstd::prelude::*;

verus! {

/// Negating zero gives zero; a consequence of the element laws.
pub proof fn lemma_neg_zero<T: Element>()
    ensures
        neg_s(T::zero_s()) == T::zero_s(),
{
    T::lemma_add_neg(T::zero_s());
    T::lemma_add_comm(T::zero_s(), neg_s(T::zero_s()));
    T::lemma_add_zero(neg_s(T::zero_s()));
}

/// Zero is also a left identity of addition.
pub proof fn lemma_add_zero_left<T: Element>(a: T)
    ensures
        add_s(T::zero_s(), a) == a,
{
    T::lemma_add_comm(T::zero_s(), a);
    T::lemma_add_zero(a);
}

/// Subtracting zero changes nothing.
pub proof fn lemma_sub_zero<T: Element>(a: T)
    ensures
        sub_s(a, T::zero_s()) == a,
{
    T::lemma_sub_is_add_neg(a, T::zero_s());
    lemma_neg_zero::<T>();
    T::lemma_add_zero(a);
}

/// A value has only one additive inverse.
proof fn lemma_inverse_unique<T: Element>(s: T, t: T, u: T)
    requires
        add_s(s, t) == T::zero_s(),
        add_s(s, u) == T::zero_s(),
    ensures
        t == u,
{
    T::lemma_add_zero(t);
    T::lemma_add_assoc(t, s, u);
    T::lemma_add_comm(t, s);
    lemma_add_zero_left::<T>(u);
}

/// Negation distributes over addition.
pub proof fn lemma_neg_add<T: Element>(x: T, y: T)
    ensures
        neg_s(add_s(x, y)) == add_s(neg_s(x), neg_s(y)),
{
    lemma_add_exchange::<T>(x, y, neg_s(x), neg_s(y));
    T::lemma_add_neg(x);
    T::lemma_add_neg(y);
    T::lemma_add_zero(T::zero_s());
    T::lemma_add_neg(add_s(x, y));
    lemma_inverse_unique::<T>(add_s(x, y), neg_s(add_s(x, y)), add_s(neg_s(x), neg_s(y)));
}

/// A difference of two sums splits into a sum of two differences:
/// `(w + x) - (y + z) == (w - y) + (x - z)`.
pub proof fn lemma_sub_add_split<T: Element>(w: T, x: T, y: T, z: T)
    ensures
        sub_s(add_s(w, x), add_s(y, z)) == add_s(sub_s(w, y), sub_s(x, z)),
{
    T::lemma_sub_is_add_neg(add_s(w, x), add_s(y, z));
    lemma_neg_add::<T>(y, z);
    lemma_add_exchange::<T>(w, x, neg_s(y), neg_s(z));
    T::lemma_sub_is_add_neg(w, y);
    T::lemma_sub_is_add_neg(x, z);
}

/// Rearranges a four-way sum: `(x + y) + (u + v) == (x + u) + (y + v)`.
pub proof fn lemma_add_exchange<T: Element>(x: T, y: T, u: T, v: T)
    ensures
        add_s(add_s(x, y), add_s(u, v)) == add_s(add_s(x, u), add_s(y, v)),
{
    T::lemma_add_assoc(x, y, add_s(u, v));
    T::lemma_add_assoc(y, u, v);
    T::lemma_add_comm(y, u);
    T::lemma_add_assoc(u, y, v);
    T::lemma_add_assoc(x, u, add_s(y, v));
}

/// Vector addition commutes: `a + b == b + a` for vectors of equal dimension.
pub proof fn lemma_vec_add_comm<T: Element>(a: Seq<T>, b: Seq<T>)
    requires
        a.len() == b.len(),
    ensures
        vzip_s(BinOp::Add, a, b) == vzip_s(BinOp::Add, b, a),
{
    assert forall|i: int| 0 <= i < a.len() implies T::eval_s(BinOp::Add, a[i], b[i]) == T::eval_s(
        BinOp::Add,
        b[i],
        a[i],
    ) by {
        T::lemma_add_comm(a[i], b[i]);
    }
    assert(vzip_s(BinOp::Add, a, b) =~= vzip_s(BinOp::Add, b, a));
}

/// Vector addition associates: `(a + b) + c == a + (b + c)` for vectors of
/// equal dimension.
pub proof fn lemma_vec_add_assoc<T: Element>(a: Seq<T>, b: Seq<T>, c: Seq<T>)
    requires
        a.len() == b.len(),
        b.len() == c.len(),
    ensures
        vzip_s(BinOp::Add, vzip_s(BinOp::Add, a, b), c) == vzip_s(
            BinOp::Add,
            a,
            vzip_s(BinOp::Add, b, c),
        ),
{
    assert forall|i: int| 0 <= i < a.len() implies vzip_s(BinOp::Add, vzip_s(BinOp::Add, a, b), c)[i]
        == vzip_s(BinOp::Add, a, vzip_s(BinOp::Add, b, c))[i] by {
        T::lemma_add_assoc(a[i], b[i], c[i]);
    }
    assert(vzip_s(BinOp::Add, vzip_s(BinOp::Add, a, b), c) =~= vzip_s(
        BinOp::Add,
        a,
        vzip_s(BinOp::Add, b, c),
    ));
}

/// The sum of a vector of zeros is zero.
pub proof fn lemma_sum_all_zero<T: Element>(s: Seq<T>)
    requires
        forall|i: int| 0 <= i < s.len() ==> s[i] == T::zero_s(),
    ensures
        sum_s(s) == T::zero_s(),
    decreases s.len(),
{
    if s.len() > 0 {
        lemma_sum_all_zero::<T>(s.drop_last());
        T::lemma_add_zero(T::zero_s());
    }
}

/// The squared magnitude of a vector of zeros is zero.
pub proof fn lemma_magsq_all_zero<T: Element>(s: Seq<T>)
    requires
        forall|i: int| 0 <= i < s.len() ==> s[i] == T::zero_s(),
    ensures
        dot_s(s, s) == T::zero_s(),
{
    let m = vzip_s(BinOp::Mul, s, s);
    assert forall|i: int| 0 <= i < m.len() implies m[i] == T::zero_s() by {
        T::lemma_mul_zero(s[i]);
    }
    lemma_sum_all_zero::<T>(m);
}

/// Summation is additive: the sum of an element-wise sum is the element sum
/// of the two sums.
pub proof fn lemma_sum_add<T: Element>(a: Seq<T>, b: Seq<T>)
    requires
        a.len() == b.len(),
    ensures
        sum_s(vzip_s(BinOp::Add, a, b)) == add_s(sum_s(a), sum_s(b)),
    decreases a.len(),
{
    let z = vzip_s(BinOp::Add, a, b);
    if a.len() == 0 {
        T::lemma_add_zero(T::zero_s());
    } else {
        assert(z.drop_last() =~= vzip_s(BinOp::Add, a.drop_last(), b.drop_last()));
        lemma_sum_add::<T>(a.drop_last(), b.drop_last());
        lemma_add_exchange::<T>(
            sum_s(a.drop_last()),
            sum_s(b.drop_last()),
            a.last(),
            b.last(),
        );
    }
}

/// The dot product is additive in its left argument:
/// `dot(a + b, c) == dot(a, c) + dot(b, c)`.
pub proof fn lemma_dot_bilinear<T: Element>(a: Seq<T>, b: Seq<T>, c: Seq<T>)
    requires
        a.len() == b.len(),
        b.len() == c.len(),
    ensures
        dot_s(vzip_s(BinOp::Add, a, b), c) == add_s(dot_s(a, c), dot_s(b, c)),
{
    let ab = vzip_s(BinOp::Add, a, b);
    assert forall|i: int| 0 <= i < a.len() implies vzip_s(BinOp::Mul, ab, c)[i] == vzip_s(
        BinOp::Add,
        vzip_s(BinOp::Mul, a, c),
        vzip_s(BinOp::Mul, b, c),
    )[i] by {
        T::lemma_mul_distrib(a[i], b[i], c[i]);
    }
    assert(vzip_s(BinOp::Mul, ab, c) =~= vzip_s(
        BinOp::Add,
        vzip_s(BinOp::Mul, a, c),
        vzip_s(BinOp::Mul, b, c),
    ));
    lemma_sum_add::<T>(vzip_s(BinOp::Mul, a, c), vzip_s(BinOp::Mul, b, c));
}

/// Interpolating with weight zero returns the first vector unchanged.
pub proof fn lemma_lerp_zero<T: Element>(a: Seq<T>, b: Seq<T>)
    requires
        a.len() == b.len(),
    ensures
        lerp_s(a, b, T::zero_s()) == a,
{
    T::lemma_sub_is_add_neg(T::one_s(), T::zero_s());
    lemma_neg_zero::<T>();
    T::lemma_add_zero(T::one_s());
    assert forall|i: int| 0 <= i < a.len() implies lerp_s(a, b, T::zero_s())[i] == a[i] by {
        T::lemma_mul_one(a[i]);
        T::lemma_mul_zero(b[i]);
        T::lemma_add_zero(a[i]);
    }
    assert(lerp_s(a, b, T::zero_s()) =~= a);
}

/// Interpolating with weight one returns the second vector unchanged.
pub proof fn lemma_lerp_one<T: Element>(a: Seq<T>, b: Seq<T>)
    requires
        a.len() == b.len(),
    ensures
        lerp_s(a, b, T::one_s()) == b,
{
    T::lemma_sub_is_add_neg(T::one_s(), T::one_s());
    T::lemma_add_neg(T::one_s());
    assert forall|i: int| 0 <= i < a.len() implies lerp_s(a, b, T::one_s())[i] == b[i] by {
        T::lemma_mul_zero(a[i]);
        T::lemma_mul_one(b[i]);
        T::lemma_add_comm(T::eval_s(BinOp::Mul, a[i], T::zero_s()), b[i]);
        T::lemma_add_zero(b[i]);
    }
    assert(lerp_s(a, b, T::one_s()) =~= b);
}

} // verus!
