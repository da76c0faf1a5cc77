//! Reductions, metrics and element-wise transformations for the
//! statically-sized vector: sum, product, dot product, squared magnitude,
//! linear interpolation, and mapping by a caller-supplied function.
use super::Vector;
use crate::element::{BinOp, Element};
use crate::ops::{
    dot_s, lemma_vscalar_total, lemma_vzip_total, lerp_s, prod_exec, prod_s, sum_exec, sum_s,
};
use vstd::prelude::*;

verus! {

impl<T: Element, const N: usize> Vector<T, N> {
    /// Folds element addition over the vector, consuming it.
    pub fn sum(self) -> (r: T)
        ensures
            r == sum_s(self@),
    {
        sum_exec(&self.into_vec())
    }

    /// Folds element addition over a borrowed vector.
    pub fn sum_ref(&self) -> (r: T)
        ensures
            r == sum_s(self@),
    {
        sum_exec(&self.to_vec())
    }

    /// Folds element multiplication over the vector, consuming it.
    pub fn product(self) -> (r: T)
        ensures
            r == prod_s(self@),
    {
        prod_exec(&self.into_vec())
    }

    /// Folds element multiplication over a borrowed vector.
    pub fn product_ref(&self) -> (r: T)
        ensures
            r == prod_s(self@),
    {
        prod_exec(&self.to_vec())
    }

    /// The dot product: pairwise products, summed in index order.
    pub fn dot(&self, other: &Vector<T, N>) -> (r: T)
        ensures
            r == dot_s(self@, other@),
    {
        proof {
            lemma_vzip_total(BinOp::Mul, self@, other@);
        }
        self.bin_op(BinOp::Mul, other).sum()
    }

    /// The squared magnitude: the vector's dot product with itself.
    pub fn magsq(&self) -> (r: T)
        ensures
            r == dot_s(self@, self@),
    {
        self.dot(self)
    }

    /// Linear interpolation toward `other` with weight `w`:
    /// `self * (1 - w) + other * w`, element-wise.
    pub fn lerp(&self, other: &Vector<T, N>, w: T) -> (r: Vector<T, N>)
        ensures
            r@ == lerp_s(self@, other@, w),
    {
        let one = T::one();
        proof {
            T::lemma_total(BinOp::Sub, one, w);
        }
        let wc = T::apply(BinOp::Sub, one, w);
        proof {
            lemma_vscalar_total(BinOp::Mul, self@, wc);
            lemma_vscalar_total(BinOp::Mul, other@, w);
        }
        let sa = self.scalar_op(BinOp::Mul, wc);
        let sb = other.scalar_op(BinOp::Mul, w);
        proof {
            lemma_vzip_total(BinOp::Add, sa@, sb@);
        }
        sa.bin_op(BinOp::Add, &sb)
    }

    /// Applies `f` to every element in index order, consuming the vector and
    /// producing one of the same dimension.
    pub fn map<U: Element, F: Fn(T) -> U>(self, f: F) -> (r: Vector<U, N>)
        requires
            forall|i: int| 0 <= i < self@.len() ==> call_requires(f, (self@[i],)),
        ensures
            r@.len() == self@.len(),
            forall|i: int| 0 <= i < self@.len() ==> call_ensures(f, (self@[i],), #[trigger] r@[i]),
    {
        self.map_ref(f)
    }

    /// Applies `f` to every element of a borrowed vector in index order.
    pub fn map_ref<U: Element, F: Fn(T) -> U>(&self, f: F) -> (r: Vector<U, N>)
        requires
            forall|i: int| 0 <= i < self@.len() ==> call_requires(f, (self@[i],)),
        ensures
            r@.len() == self@.len(),
            forall|i: int| 0 <= i < self@.len() ==> call_ensures(f, (self@[i],), #[trigger] r@[i]),
    {
        let n = self.dim();
        let mut out: Vec<U> = Vec::new();
        for i in 0..n
            invariant
                n == N,
                n == self@.len(),
                out@.len() == i,
                forall|j: int| 0 <= j < self@.len() ==> call_requires(f, (self@[j],)),
                forall|j: int| 0 <= j < i ==> call_ensures(f, (self@[j],), #[trigger] out@[j]),
        {
            let v = f(self.get(i));
            out.push(v);
        }
        let r = Vector::try_from_vec(out);
        match r {
            Ok(v) => v,
            Err(e) => {
                // the loop built exactly N elements
                proof {
                    assert(false);
                }
                Vector::new()
            },
        }
    }
}

} // verus!
