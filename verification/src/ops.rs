//! The element-wise combinators both vector variants are built on.
//!
//! Each arithmetic primitive is dispatched once, generically over the
//! operator: one combinator for vector-vector combination, one for scalar
//! broadcast, one for in-place assignment, one for unary application, and the
//! two reductions (sum and product).  The named operations on the vector
//! types are thin wrappers over these.
use crate::element::{add_s, mul_s, sub_s, BinOp, Element, UnOp};
use vstd::prelude::*;

verus! {

/// `a` and `b` combined pairwise with `op`, in index order.
pub open spec fn vzip_s<T: Element>(op: BinOp, a: Seq<T>, b: Seq<T>) -> Seq<T> {
    Seq::new(a.len(), |i: int| T::eval_s(op, a[i], b[i]))
}

/// Whether `op` is defined on every aligned pair of `a` and `b`.
pub open spec fn vzip_ok<T: Element>(op: BinOp, a: Seq<T>, b: Seq<T>) -> bool {
    forall|i: int| 0 <= i < a.len() ==> T::eval_ok(op, a[i], b[i])
}

/// Every element of `a` combined with the scalar `k` on the right.
pub open spec fn vscalar_s<T: Element>(op: BinOp, a: Seq<T>, k: T) -> Seq<T> {
    Seq::new(a.len(), |i: int| T::eval_s(op, a[i], k))
}

/// Whether `op` is defined on every element of `a` with the scalar `k`.
pub open spec fn vscalar_ok<T: Element>(op: BinOp, a: Seq<T>, k: T) -> bool {
    forall|i: int| 0 <= i < a.len() ==> T::eval_ok(op, a[i], k)
}

/// `op` applied to every element of `a`.
pub open spec fn vun_s<T: Element>(op: UnOp, a: Seq<T>) -> Seq<T> {
    Seq::new(a.len(), |i: int| T::un_s(op, a[i]))
}

/// The sum of `s`: a left fold of element addition starting from zero.
pub open spec fn sum_s<T: Element>(s: Seq<T>) -> T
    decreases s.len(),
{
    if s.len() == 0 {
        T::zero_s()
    } else {
        add_s(sum_s(s.drop_last()), s.last())
    }
}

/// The product of `s`: a left fold of element multiplication starting from one.
pub open spec fn prod_s<T: Element>(s: Seq<T>) -> T
    decreases s.len(),
{
    if s.len() == 0 {
        T::one_s()
    } else {
        mul_s(prod_s(s.drop_last()), s.last())
    }
}

/// The dot product: pairwise multiplication, then the sum.
pub open spec fn dot_s<T: Element>(a: Seq<T>, b: Seq<T>) -> T {
    sum_s(vzip_s(BinOp::Mul, a, b))
}

/// Linear interpolation with weight `w`: `a * (1 - w) + b * w`, element-wise.
pub open spec fn lerp_s<T: Element>(a: Seq<T>, b: Seq<T>, w: T) -> Seq<T> {
    vzip_s(
        BinOp::Add,
        vscalar_s(BinOp::Mul, a, sub_s(T::one_s(), w)),
        vscalar_s(BinOp::Mul, b, w),
    )
}

/// A total primitive is defined on every aligned pair.
pub proof fn lemma_vzip_total<T: Element>(op: BinOp, a: Seq<T>, b: Seq<T>)
    requires
        crate::element::total_op(op),
    ensures
        vzip_ok(op, a, b),
{
    assert forall|i: int| 0 <= i < a.len() implies T::eval_ok(op, a[i], b[i]) by {
        T::lemma_total(op, a[i], b[i]);
    }
}

/// A total primitive is defined on every element paired with a scalar.
pub proof fn lemma_vscalar_total<T: Element>(op: BinOp, a: Seq<T>, k: T)
    requires
        crate::element::total_op(op),
    ensures
        vscalar_ok(op, a, k),
{
    assert forall|i: int| 0 <= i < a.len() implies T::eval_ok(op, a[i], k) by {
        T::lemma_total(op, a[i], k);
    }
}

/// Combines two equally long element buffers pairwise with `op`.
pub(crate) fn zip_exec<T: Element>(op: BinOp, a: &Vec<T>, b: &Vec<T>) -> (r: Vec<T>)
    requires
        a@.len() == b@.len(),
        vzip_ok(op, a@, b@),
    ensures
        r@ == vzip_s(op, a@, b@),
{
    let n = a.len();
    let mut out: Vec<T> = Vec::new();
    for i in 0..n
        invariant
            n == a@.len(),
            a@.len() == b@.len(),
            vzip_ok(op, a@, b@),
            out@.len() == i,
            forall|j: int| 0 <= j < i ==> out@[j] == T::eval_s(op, a@[j], b@[j]),
    {
        let v = T::apply(op, a[i], b[i]);
        out.push(v);
    }
    proof {
        assert(out@ =~= vzip_s(op, a@, b@));
    }
    out
}

/// Combines every element of `a` with the scalar `k` on the right.
pub(crate) fn scalar_exec<T: Element>(op: BinOp, a: &Vec<T>, k: T) -> (r: Vec<T>)
    requires
        vscalar_ok(op, a@, k),
    ensures
        r@ == vscalar_s(op, a@, k),
{
    let n = a.len();
    let mut out: Vec<T> = Vec::new();
    for i in 0..n
        invariant
            n == a@.len(),
            vscalar_ok(op, a@, k),
            out@.len() == i,
            forall|j: int| 0 <= j < i ==> out@[j] == T::eval_s(op, a@[j], k),
    {
        let v = T::apply(op, a[i], k);
        out.push(v);
    }
    proof {
        assert(out@ =~= vscalar_s(op, a@, k));
    }
    out
}

/// Combines `a` with `b` pairwise in place, mutating exactly `a`.
pub(crate) fn zip_assign_exec<T: Element>(op: BinOp, a: &mut Vec<T>, b: &Vec<T>)
    requires
        old(a)@.len() == b@.len(),
        vzip_ok(op, old(a)@, b@),
    ensures
        final(a)@ == vzip_s(op, old(a)@, b@),
{
    let n = a.len();
    for i in 0..n
        invariant
            n == old(a)@.len(),
            a@.len() == old(a)@.len(),
            old(a)@.len() == b@.len(),
            vzip_ok(op, old(a)@, b@),
            forall|j: int| 0 <= j < i ==> a@[j] == T::eval_s(op, old(a)@[j], b@[j]),
            forall|j: int| i <= j < a@.len() ==> a@[j] == old(a)@[j],
    {
        let v = T::apply(op, a[i], b[i]);
        a[i] = v;
    }
    proof {
        assert(a@ =~= vzip_s(op, old(a)@, b@));
    }
}

/// Applies the unary `op` to every element.
pub(crate) fn un_exec<T: Element>(op: UnOp, a: &Vec<T>) -> (r: Vec<T>)
    ensures
        r@ == vun_s(op, a@),
{
    let n = a.len();
    let mut out: Vec<T> = Vec::new();
    for i in 0..n
        invariant
            n == a@.len(),
            out@.len() == i,
            forall|j: int| 0 <= j < i ==> out@[j] == T::un_s(op, a@[j]),
    {
        let v = T::apply_un(op, a[i]);
        out.push(v);
    }
    proof {
        assert(out@ =~= vun_s(op, a@));
    }
    out
}

/// Folds element addition over the buffer, front to back.
pub(crate) fn sum_exec<T: Element>(a: &Vec<T>) -> (r: T)
    ensures
        r == sum_s(a@),
{
    let mut acc = T::zero();
    proof {
        assert(a@.take(0) =~= Seq::<T>::empty());
    }
    let n = a.len();
    for i in 0..n
        invariant
            n == a@.len(),
            acc == sum_s(a@.take(i as int)),
    {
        let v = a[i];
        proof {
            T::lemma_total(BinOp::Add, acc, v);
            assert(a@.take(i + 1).drop_last() =~= a@.take(i as int));
            assert(a@.take(i + 1).last() == a@[i as int]);
        }
        acc = T::apply(BinOp::Add, acc, v);
    }
    proof {
        assert(a@.take(a@.len() as int) =~= a@);
    }
    acc
}

/// Folds element multiplication over the buffer, front to back.
pub(crate) fn prod_exec<T: Element>(a: &Vec<T>) -> (r: T)
    ensures
        r == prod_s(a@),
{
    let mut acc = T::one();
    proof {
        assert(a@.take(0) =~= Seq::<T>::empty());
    }
    let n = a.len();
    for i in 0..n
        invariant
            n == a@.len(),
            acc == prod_s(a@.take(i as int)),
    {
        let v = a[i];
        proof {
            T::lemma_total(BinOp::Mul, acc, v);
            assert(a@.take(i + 1).drop_last() =~= a@.take(i as int));
            assert(a@.take(i + 1).last() == a@[i as int]);
        }
        acc = T::apply(BinOp::Mul, acc, v);
    }
    proof {
        assert(a@.take(a@.len() as int) =~= a@);
    }
    acc
}

/// A buffer of `n` zero elements.
pub(crate) fn zero_exec<T: Element>(n: usize) -> (r: Vec<T>)
    ensures
        r@.len() == n,
        forall|i: int| 0 <= i < n ==> r@[i] == T::zero_s(),
{
    let mut out: Vec<T> = Vec::new();
    for i in 0..n
        invariant
            out@.len() == i,
            forall|j: int| 0 <= j < i ==> out@[j] == T::zero_s(),
    {
        let v = T::zero();
        out.push(v);
    }
    out
}

/// A copy of the buffer, element for element.
pub(crate) fn copy_exec<T: Element>(a: &Vec<T>) -> (r: Vec<T>)
    ensures
        r@ == a@,
{
    let n = a.len();
    let mut out: Vec<T> = Vec::new();
    for i in 0..n
        invariant
            n == a@.len(),
            out@.len() == i,
            forall|j: int| 0 <= j < i ==> out@[j] == a@[j],
    {
        let v = a[i];
        out.push(v);
    }
    proof {
        assert(out@ =~= a@);
    }
    out
}

/// Whether two buffers hold the same elements in the same order.
pub(crate) fn eq_exec<T: Element>(a: &Vec<T>, b: &Vec<T>) -> (r: bool)
    ensures
        r == (a@ == b@),
{
    if a.len() != b.len() {
        proof {
            assert(a@ != b@);
        }
        return false;
    }
    let n = a.len();
    for i in 0..n
        invariant
            n == a@.len(),
            a@.len() == b@.len(),
            forall|j: int| 0 <= j < i ==> a@[j] == b@[j],
    {
        if !T::eq_el(a[i], b[i]) {
            proof {
                assert(a@[i as int] != b@[i as int]);
            }
            return false;
        }
    }
    proof {
        assert(a@ =~= b@);
    }
    true
}

} // verus!
