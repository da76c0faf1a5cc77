//! Reductions, metrics and element-wise transformations for the dynamic
//! vector: sum, product, dot product, squared magnitude, linear
//! interpolation, and mapping by a caller-supplied function.
use super::{DimensionMismatch, Vector};
use crate::element::{BinOp, Element};
use crate::ops::{
    dot_s, lemma_vscalar_total, lemma_vzip_total, lerp_s, prod_exec, prod_s, scalar_exec,
    sum_exec, sum_s, zip_exec,
};
use vstd::prelude::*;

verus! {

impl<T: Element> Vector<T> {
    /// Folds element addition over the vector, consuming it.
    pub fn sum(self) -> (r: T)
        ensures
            r == sum_s(self@),
    {
        sum_exec(&self.into_vec())
    }

    /// Folds element addition over a borrowed vector.
    pub fn sum_ref(&self) -> (r: T)
        ensures
            r == sum_s(self@),
    {
        sum_exec(&self.to_vec())
    }

    /// Folds element multiplication over the vector, consuming it.
    pub fn product(self) -> (r: T)
        ensures
            r == prod_s(self@),
    {
        prod_exec(&self.into_vec())
    }

    /// Folds element multiplication over a borrowed vector.
    pub fn product_ref(&self) -> (r: T)
        ensures
            r == prod_s(self@),
    {
        prod_exec(&self.to_vec())
    }

    /// The dot product of two vectors of equal dimension: pairwise products,
    /// summed in index order.
    pub fn dot(&self, other: &Vector<T>) -> (r: Result<T, DimensionMismatch>)
        ensures
            r is Ok <==> self@.len() == other@.len(),
            r matches Ok(v) ==> v == dot_s(self@, other@),
    {
        proof {
            lemma_vzip_total(BinOp::Mul, self@, other@);
        }
        match self.bin_op(BinOp::Mul, other) {
            Ok(prods) => Ok(prods.sum()),
            Err(e) => Err(e),
        }
    }

    /// The squared magnitude: the vector's dot product with itself.
    pub fn magsq(&self) -> (r: T)
        ensures
            r == dot_s(self@, self@),
    {
        let buf = self.to_vec();
        proof {
            lemma_vzip_total(BinOp::Mul, buf@, buf@);
        }
        let prods = zip_exec(BinOp::Mul, &buf, &buf);
        sum_exec(&prods)
    }

    /// Linear interpolation toward `other` with weight `w`:
    /// `self * (1 - w) + other * w`, element-wise.
    pub fn lerp(&self, other: &Vector<T>, w: T) -> (r: Result<Vector<T>, DimensionMismatch>)
        ensures
            r is Ok <==> self@.len() == other@.len(),
            r matches Ok(v) ==> v@ == lerp_s(self@, other@, w),
    {
        if self.dim() != other.dim() {
            return Err(DimensionMismatch);
        }
        let one = T::one();
        proof {
            T::lemma_total(BinOp::Sub, one, w);
        }
        let wc = T::apply(BinOp::Sub, one, w);
        proof {
            lemma_vscalar_total(BinOp::Mul, self@, wc);
            lemma_vscalar_total(BinOp::Mul, other@, w);
        }
        let sa = self.scalar_op(BinOp::Mul, wc);
        let sb = other.scalar_op(BinOp::Mul, w);
        proof {
            lemma_vzip_total(BinOp::Add, sa@, sb@);
        }
        sa.bin_op(BinOp::Add, &sb)
    }

    /// Applies `f` to every element in index order, consuming the vector and
    /// producing one of the same dimension.
    pub fn map<U: Element, F: Fn(T) -> U>(self, f: F) -> (r: Vector<U>)
        requires
            forall|i: int| 0 <= i < self@.len() ==> call_requires(f, (self@[i],)),
        ensures
            r@.len() == self@.len(),
            forall|i: int| 0 <= i < self@.len() ==> call_ensures(f, (self@[i],), #[trigger] r@[i]),
    {
        self.map_ref(f)
    }

    /// Applies `f` to every element of a borrowed vector in index order.
    pub fn map_ref<U: Element, F: Fn(T) -> U>(&self, f: F) -> (r: Vector<U>)
        requires
            forall|i: int| 0 <= i < self@.len() ==> call_requires(f, (self@[i],)),
        ensures
            r@.len() == self@.len(),
            forall|i: int| 0 <= i < self@.len() ==> call_ensures(f, (self@[i],), #[trigger] r@[i]),
    {
        let n = self.dim();
        let mut out: Vec<U> = Vec::new();
        for i in 0..n
            invariant
                n == self@.len(),
                out@.len() == i,
                forall|j: int| 0 <= j < self@.len() ==> call_requires(f, (self@[j],)),
                forall|j: int| 0 <= j < i ==> call_ensures(f, (self@[j],), #[trigger] out@[j]),
        {
            let v = f(self.get(i));
            out.push(v);
        }
        Vector::from_vec(out)
    }
}

} // verus!
