//! Tests for vectors of complex elements.
use numvec::complex::Complex;
use numvec::vector::Vector;
use numvec::vector_sized::Vector as SizedVector;

fn c(re: i64, im: i64) -> Complex<i64> {
    Complex { re, im }
}

#[test]
fn complex_add_elementwise() {
    let a = Vector::from_vec(vec![c(1, 2), c(0, -1)]);
    let b = Vector::from_vec(vec![c(3, 4), c(5, 5)]);

    assert_eq!(a.add(&b).unwrap().to_vec(), vec![c(4, 6), c(5, 4)]);
}

#[test]
fn complex_mul_elementwise() {
    let a = Vector::from_vec(vec![c(1, 2)]);
    let b = Vector::from_vec(vec![c(3, 4)]);

    // (1 + 2i)(3 + 4i) == -5 + 10i
    assert_eq!(a.mul(&b).unwrap().to_vec(), vec![c(-5, 10)]);
}

#[test]
fn complex_neg_and_sub() {
    let a = Vector::from_vec(vec![c(1, -2)]);
    let b = Vector::from_vec(vec![c(4, 1)]);

    assert_eq!(a.neg().to_vec(), vec![c(-1, 2)]);
    assert_eq!(a.sub(&b).unwrap().to_vec(), vec![c(-3, -3)]);
}

#[test]
fn complex_dot() {
    let a = Vector::from_vec(vec![c(1, 1), c(2, 0)]);
    let b = Vector::from_vec(vec![c(3, 0), c(0, 1)]);

    // (1 + i)(3) + (2)(i) == 3 + 5i
    assert_eq!(a.dot(&b).unwrap(), c(3, 5));
}

#[test]
fn complex_sum_product() {
    let a = Vector::from_vec(vec![c(1, 2), c(3, -1)]);

    assert_eq!(a.sum_ref(), c(4, 1));
    // (1 + 2i)(3 - i) == 5 + 5i
    assert_eq!(a.product_ref(), c(5, 5));
}

#[test]
fn complex_lerp_endpoints() {
    let a = Vector::from_vec(vec![c(1, 2), c(3, 4)]);
    let b = Vector::from_vec(vec![c(-5, 0), c(0, 7)]);

    assert_eq!(a.lerp(&b, c(0, 0)).unwrap(), a);
    assert_eq!(a.lerp(&b, c(1, 0)).unwrap(), b);
}

#[test]
fn complex_sized_vector() {
    let a = SizedVector::<Complex<i64>, 2>::create(c(1, 0), c(0, 1));
    let b = SizedVector::<Complex<i64>, 2>::create(c(0, 1), c(1, 0));

    assert_eq!(a.add(&b).to_vec(), vec![c(1, 1), c(1, 1)]);
    assert_eq!(a.dot(&b), c(0, 2));
    assert_eq!(a.magsq(), c(0, 0));
}
