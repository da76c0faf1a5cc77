//! Tests for the dynamically-sized vector.
use numvec::vector::{DimensionMismatch, Vector};

#[test]
fn init() {
    let v = Vector::<i64>::new(2);

    assert_eq!(v.to_vec(), vec![0, 0])
}

#[test]
fn from_vec() {
    let v = Vector::<i64>::from_vec(vec![1, 2, 3]);

    assert_eq!(v.to_vec(), vec![1, 2, 3])
}

#[test]
fn from_slice() {
    let a = [1i64, 2, 3, 4, 5, 6];
    let v = Vector::<i64>::from_slice(&a[1..3]);

    assert_eq!(v.to_vec(), Vec::from(&a[1..3]))
}

#[test]
fn dot() {
    let v1 = Vector::<i64>::from_vec(vec![1, 2]);
    let v2 = Vector::<i64>::from_vec(vec![4, 9]);

    assert_eq!(v1.dot(&v2).unwrap(), 1 * 4 + 2 * 9)
}

#[test]
fn dot_dimension_mismatch() {
    let v1 = Vector::<i64>::from_vec(vec![1, 2]);
    let v2 = Vector::<i64>::from_vec(vec![1, 2, 3]);

    assert_eq!(v1.dot(&v2).unwrap_err(), DimensionMismatch);
}

#[test]
fn add_elementwise() {
    let v = Vector::<i64>::from_vec(vec![0, 1]);
    let w = Vector::<i64>::from_vec(vec![2, 3]);

    assert_eq!(v.add(&w).unwrap().to_vec(), vec![2, 4]);
}

#[test]
fn add_dimension_mismatch() {
    let v = Vector::<i64>::from_vec(vec![1, 2]);
    let w = Vector::<i64>::from_vec(vec![1, 2, 3]);

    assert_eq!(v.add(&w).unwrap_err(), DimensionMismatch);
}

#[test]
fn add_commutes() {
    let a = Vector::<i64>::from_vec(vec![3, -7, 11]);
    let b = Vector::<i64>::from_vec(vec![5, 2, -9]);

    assert_eq!(a.add(&b).unwrap(), b.add(&a).unwrap());
}

#[test]
fn add_associates() {
    let a = Vector::<i64>::from_vec(vec![1, 2, 3]);
    let b = Vector::<i64>::from_vec(vec![-4, 5, 6]);
    let c = Vector::<i64>::from_vec(vec![7, -8, 9]);

    let left = a.add(&b).unwrap().add(&c).unwrap();
    let right = a.add(&b.add(&c).unwrap()).unwrap();
    assert_eq!(left, right);
}

#[test]
fn add_wraps_on_overflow() {
    let a = Vector::<i64>::from_vec(vec![i64::MAX]);
    let b = Vector::<i64>::from_vec(vec![1]);

    assert_eq!(a.add(&b).unwrap().to_vec(), vec![i64::MIN]);
}

#[test]
fn sub_and_neg() {
    let a = Vector::<i64>::from_vec(vec![5, 1]);
    let b = Vector::<i64>::from_vec(vec![2, 4]);

    assert_eq!(a.sub(&b).unwrap().to_vec(), vec![3, -3]);
    assert_eq!(b.neg().to_vec(), vec![-2, -4]);
}

#[test]
fn mul_and_div() {
    let a = Vector::<i64>::from_vec(vec![6, -9]);
    let b = Vector::<i64>::from_vec(vec![2, 3]);

    assert_eq!(a.mul(&b).unwrap().to_vec(), vec![12, -27]);
    assert_eq!(a.div(&b).unwrap().to_vec(), vec![3, -3]);
    assert_eq!(a.rem(&b).unwrap().to_vec(), vec![0, 0]);
}

#[test]
fn div_truncates_toward_zero() {
    let a = Vector::<i64>::from_vec(vec![-7, 7]);
    let b = Vector::<i64>::from_vec(vec![2, -2]);

    assert_eq!(a.div(&b).unwrap().to_vec(), vec![-3, -3]);
    assert_eq!(a.rem(&b).unwrap().to_vec(), vec![-1, 1]);
}

#[test]
fn bit_operations() {
    let a = Vector::<u64>::from_vec(vec![0b1100, 0b1010]);
    let b = Vector::<u64>::from_vec(vec![0b1010, 0b0110]);

    assert_eq!(a.bitand(&b).unwrap().to_vec(), vec![0b1000, 0b0010]);
    assert_eq!(a.bitor(&b).unwrap().to_vec(), vec![0b1110, 0b1110]);
    assert_eq!(a.bitxor(&b).unwrap().to_vec(), vec![0b0110, 0b1100]);
    assert_eq!(a.not().to_vec(), vec![!0b1100u64, !0b1010u64]);
}

#[test]
fn shifts() {
    let a = Vector::<u64>::from_vec(vec![1, 8]);
    let s = Vector::<u64>::from_vec(vec![3, 2]);

    assert_eq!(a.shl(&s).unwrap().to_vec(), vec![8, 32]);
    assert_eq!(a.shr(&s).unwrap().to_vec(), vec![0, 2]);
}

#[test]
fn assignment_forms() {
    let mut a = Vector::<i64>::from_vec(vec![1, 2]);
    let b = Vector::<i64>::from_vec(vec![10, 20]);

    a.add_assign(&b).unwrap();
    assert_eq!(a.to_vec(), vec![11, 22]);
    a.sub_assign(&b).unwrap();
    assert_eq!(a.to_vec(), vec![1, 2]);
    a.mul_assign(&b).unwrap();
    assert_eq!(a.to_vec(), vec![10, 40]);
    a.div_assign(&b).unwrap();
    assert_eq!(a.to_vec(), vec![1, 2]);
}

#[test]
fn assignment_mismatch_leaves_receiver() {
    let mut a = Vector::<i64>::from_vec(vec![1, 2]);
    let b = Vector::<i64>::from_vec(vec![10, 20, 30]);

    assert_eq!(a.add_assign(&b).unwrap_err(), DimensionMismatch);
    assert_eq!(a.to_vec(), vec![1, 2]);
}

#[test]
fn scalar_broadcast() {
    let a = Vector::<i64>::from_vec(vec![1, -2, 3]);

    assert_eq!(a.mul_scalar(4).to_vec(), vec![4, -8, 12]);
    assert_eq!(a.div_scalar(2).to_vec(), vec![0, -1, 1]);
    assert_eq!(a.shift_ref(10).to_vec(), vec![11, 8, 13]);
    assert_eq!(a.shift(10).to_vec(), vec![11, 8, 13]);
}

#[test]
fn sum_and_product() {
    let a = Vector::<i64>::from_vec(vec![2, 3, 4]);

    assert_eq!(a.sum_ref(), 9);
    assert_eq!(a.product_ref(), 24);
    let b = Vector::<i64>::from_vec(vec![2, 3, 4]);
    assert_eq!(b.sum(), 9);
    let c = Vector::<i64>::from_vec(vec![2, 3, 4]);
    assert_eq!(c.product(), 24);
}

#[test]
fn zero_vector_reductions() {
    let z = Vector::<i64>::new(5);

    assert_eq!(z.sum_ref(), 0);
    assert_eq!(z.magsq(), 0);
}

#[test]
fn magsq_integer() {
    let v = Vector::<i64>::from_vec(vec![1, 2]);

    assert_eq!(v.magsq(), 5);
}

#[test]
fn dot_is_bilinear() {
    let a = Vector::<i64>::from_vec(vec![1, -2, 3]);
    let b = Vector::<i64>::from_vec(vec![4, 5, -6]);
    let c = Vector::<i64>::from_vec(vec![7, 8, 9]);

    let left = a.add(&b).unwrap().dot(&c).unwrap();
    let right = a.dot(&c).unwrap() + b.dot(&c).unwrap();
    assert_eq!(left, right);
}

#[test]
fn lerp_endpoints() {
    let a = Vector::<i64>::from_vec(vec![3, -5, 7]);
    let b = Vector::<i64>::from_vec(vec![-2, 9, 4]);

    assert_eq!(a.lerp(&b, 0).unwrap(), a);
    assert_eq!(a.lerp(&b, 1).unwrap(), b);
}

#[test]
fn lerp_dimension_mismatch() {
    let a = Vector::<i64>::from_vec(vec![3, -5, 7]);
    let b = Vector::<i64>::from_vec(vec![-2, 9]);

    assert_eq!(a.lerp(&b, 1).unwrap_err(), DimensionMismatch);
}

#[test]
fn accessors() {
    let v = Vector::<i64>::from_vec(vec![10, 20, 30]);

    assert_eq!(v.dim(), 3);
    assert_eq!(v.get(1), 20);
    assert_eq!(v.x(), 10);
    assert_eq!(v.y(), 20);
    assert_eq!(v.z(), 30);
    assert_eq!(v.r(), 10);
    assert_eq!(v.theta(), 20);
}

#[test]
fn set_replaces_one_element() {
    let mut v = Vector::<i64>::from_vec(vec![10, 20, 30]);

    v.set(1, 99);
    assert_eq!(v.to_vec(), vec![10, 99, 30]);
}

#[test]
fn equality_is_elementwise() {
    let a = Vector::<i64>::from_vec(vec![1, 2]);
    let b = Vector::<i64>::from_vec(vec![1, 2]);
    let c = Vector::<i64>::from_vec(vec![1, 3]);
    let d = Vector::<i64>::from_vec(vec![1, 2, 3]);

    assert!(a == b);
    assert!(a != c);
    assert!(a != d);
}

#[test]
fn map_elementwise() {
    let v = Vector::<i64>::from_vec(vec![1, 2, 3]);

    let doubled = v.map_ref(|x| x * 2);
    assert_eq!(doubled.to_vec(), vec![2, 4, 6]);
    let moved = v.map(|x| x + 1);
    assert_eq!(moved.to_vec(), vec![2, 3, 4]);
}

#[test]
fn iter_walks_in_order() {
    let v = Vector::<i64>::from_vec(vec![7, 8]);

    let mut it = v.iter();
    assert_eq!(it.next(), Some(7));
    assert_eq!(it.next(), Some(8));
    assert_eq!(it.next(), None);
    assert_eq!(it.next(), None);

    // a fresh call restarts the traversal
    let mut again = v.iter();
    assert_eq!(again.next(), Some(7));
}

#[test]
fn unsigned_wrapping() {
    let a = Vector::<u64>::from_vec(vec![u64::MAX]);
    let b = Vector::<u64>::from_vec(vec![1]);

    assert_eq!(a.add(&b).unwrap().to_vec(), vec![0]);
    assert_eq!(b.sub(&a).unwrap().to_vec(), vec![2]);
    assert_eq!(b.neg().to_vec(), vec![u64::MAX]);
}

#[test]
fn iter_mut_replaces_elements() {
    let v = Vector::<i64>::from_vec(vec![1, 2, 3]);

    let mut it = v.iter_mut();
    while let Some(x) = it.next() {
        it.set(x * 10);
    }
    let w = Vector::from_vec(it.finish());
    assert_eq!(w.to_vec(), vec![10, 20, 30]);
}

#[test]
fn thirty_two_bit_elements() {
    let a = Vector::<i32>::from_vec(vec![1, -2]);
    let b = Vector::<i32>::from_vec(vec![3, 4]);
    assert_eq!(a.add(&b).unwrap().to_vec(), vec![4, 2]);
    assert_eq!(a.dot(&b).unwrap(), -5);

    let c = Vector::<u32>::from_vec(vec![u32::MAX, 2]);
    let d = Vector::<u32>::from_vec(vec![1, 3]);
    assert_eq!(c.add(&d).unwrap().to_vec(), vec![0, 5]);
    assert_eq!(c.mul(&d).unwrap().to_vec(), vec![u32::MAX, 6]);
}
