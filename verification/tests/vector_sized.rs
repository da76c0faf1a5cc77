//! Tests for the statically-sized vector.
use numvec::vector_sized::{RepeatN, RepeatNWith, TryFromVectorError, Vector};

#[test]
fn sized_new_is_zero() {
    let v = Vector::<i64, 4>::new();

    assert_eq!(v.to_vec(), vec![0, 0, 0, 0]);
    assert_eq!(v.dim(), 4);
}

#[test]
fn sized_create() {
    let v = Vector::<i64, 3>::create(1, 2, 3);

    assert_eq!(v.to_vec(), vec![1, 2, 3]);
    assert_eq!(v.x(), 1);
    assert_eq!(v.y(), 2);
    assert_eq!(v.z(), 3);
}

#[test]
fn sized_try_from_accepts_declared_length() {
    let v: Vector<i64, 3> = Vector::try_from(&[1, 2, 3][..]).unwrap();

    assert_eq!(v.to_vec(), vec![1, 2, 3]);
}

#[test]
fn sized_try_from_rejects_other_lengths() {
    let short: Result<Vector<i64, 3>, _> = Vector::try_from(&[1, 2][..]);
    let long: Result<Vector<i64, 3>, _> = Vector::try_from(&[1, 2, 3, 4][..]);

    assert_eq!(short.unwrap_err(), TryFromVectorError);
    assert_eq!(long.unwrap_err(), TryFromVectorError);
}

#[test]
fn sized_roundtrip() {
    let v = Vector::<i64, 3>::create(4, -5, 6);

    let serialized = v.to_vec();
    assert_eq!(serialized.len(), 3);
    let w: Vector<i64, 3> = Vector::try_from_vec(serialized).unwrap();
    assert_eq!(w, v);
}

#[test]
fn sized_add_elementwise() {
    let v = Vector::<i64, 2>::create(0, 1);
    let w = Vector::<i64, 2>::create(2, 3);
    let o = Vector::<i64, 2>::create(2, 4);

    assert_eq!(v.add(&w), o);
}

#[test]
fn sized_dot() {
    let v = Vector::<i64, 2>::create(1, 2);
    let w = Vector::<i64, 2>::create(4, 9);

    assert_eq!(v.dot(&w), 22);
}

#[test]
fn sized_magsq() {
    let v = Vector::<i64, 2>::create(1, 2);

    assert_eq!(v.magsq(), 5);
}

#[test]
fn sized_zero_reductions() {
    let z = Vector::<i64, 6>::new();

    assert_eq!(z.sum_ref(), 0);
    assert_eq!(z.magsq(), 0);
}

#[test]
fn sized_lerp_endpoints() {
    let a = Vector::<i64, 3>::create(3, -5, 7);
    let b = Vector::<i64, 3>::create(-2, 9, 4);

    assert_eq!(a.lerp(&b, 0), a);
    assert_eq!(a.lerp(&b, 1), b);
}

#[test]
fn sized_scalar_and_shift() {
    let a = Vector::<i64, 3>::create(1, -2, 3);

    assert_eq!(a.mul_scalar(4).to_vec(), vec![4, -8, 12]);
    assert_eq!(a.div_scalar(2).to_vec(), vec![0, -1, 1]);
    assert_eq!(a.shift_ref(10).to_vec(), vec![11, 8, 13]);
    assert_eq!(a.shift(10).to_vec(), vec![11, 8, 13]);
}

#[test]
fn sized_assignment_forms() {
    let mut a = Vector::<i64, 2>::create(1, 2);
    let b = Vector::<i64, 2>::create(10, 20);

    a.add_assign(&b);
    assert_eq!(a.to_vec(), vec![11, 22]);
    a.sub_assign(&b);
    assert_eq!(a.to_vec(), vec![1, 2]);
    a.mul_assign(&b);
    assert_eq!(a.to_vec(), vec![10, 40]);
    a.div_assign(&b);
    assert_eq!(a.to_vec(), vec![1, 2]);
}

#[test]
fn sized_sum_product() {
    let a = Vector::<i64, 3>::create(2, 3, 4);

    assert_eq!(a.sum_ref(), 9);
    assert_eq!(a.product_ref(), 24);
    assert_eq!(Vector::<i64, 3>::create(2, 3, 4).sum(), 9);
    assert_eq!(Vector::<i64, 3>::create(2, 3, 4).product(), 24);
}

#[test]
fn sized_map_and_set() {
    let v = Vector::<i64, 3>::create(1, 2, 3);

    let doubled = v.map_ref(|x| x * 2);
    assert_eq!(doubled.to_vec(), vec![2, 4, 6]);

    let mut w = v.map(|x| x - 1);
    assert_eq!(w.to_vec(), vec![0, 1, 2]);
    w.set(0, 9);
    assert_eq!(w.get(0), 9);
}

#[test]
fn sized_iter_walks_in_order() {
    let v = Vector::<i64, 2>::create(7, 8);

    let mut it = v.iter();
    assert_eq!(it.next(), Some(7));
    assert_eq!(it.next(), Some(8));
    assert_eq!(it.next(), None);
}

#[test]
fn sized_create_small_dimensions() {
    let v0 = Vector::<i64, 0>::create();
    let v1 = Vector::<i64, 1>::create(5);
    let v4 = Vector::<i64, 4>::create(1, 2, 3, 4);
    let v10 = Vector::<i64, 10>::create(0, 1, 2, 3, 4, 5, 6, 7, 8, 9);

    assert_eq!(v0.dim(), 0);
    assert_eq!(v1.to_vec(), vec![5]);
    assert_eq!(v4.to_vec(), vec![1, 2, 3, 4]);
    assert_eq!(v10.to_vec(), vec![0, 1, 2, 3, 4, 5, 6, 7, 8, 9]);
}

#[test]
fn repeat_n_yields_count_copies() {
    let mut src = RepeatN::new(7i64, 2);

    assert_eq!(src.size_hint(), (2, Some(2)));
    assert_eq!(src.next(), Some(7));
    assert_eq!(src.next(), Some(7));
    assert_eq!(src.next(), None);
    assert_eq!(src.size_hint(), (0, Some(0)));
}

#[test]
fn repeat_n_with_draws_from_producer() {
    let mut src = RepeatNWith::new(|| 41i64 + 1, 2);

    assert_eq!(src.size_hint(), (2, Some(2)));
    assert_eq!(src.next(), Some(42));
    assert_eq!(src.next(), Some(42));
    assert_eq!(src.next(), None);
}

#[test]
fn sized_iter_mut_replaces_elements() {
    let v = Vector::<i64, 3>::create(1, 2, 3);

    let mut it = v.iter_mut();
    while let Some(x) = it.next() {
        it.set(x + 5);
    }
    let w: Vector<i64, 3> = Vector::try_from_vec(it.finish()).unwrap();
    assert_eq!(w.to_vec(), vec![6, 7, 8]);
}
