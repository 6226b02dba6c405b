use linear_algebra::vector::{
    resize, FromVector1, FromVector2, FromVector3, FromVector4, ToVector1, ToVector2, ToVector3,
    ToVector4, Vector, Vector1, Vector2, Vector3, Vector4,
};
use linear_algebra::OutOfRange;

#[test]
fn same_dimension_round_trip_is_identity() {
    let v1 = Vector1::new(7);
    assert_eq!(Vector1::from_vec_1(v1).to_vec_1(), v1);
    let v2 = Vector2::new(7, -8);
    assert_eq!(Vector2::from_vec_2(v2).to_vec_2(), v2);
    let v3 = Vector3::new(7, -8, 9);
    assert_eq!(Vector3::from_vec_3(v3).to_vec_3(), v3);
    let v4 = Vector4::new(7, -8, 9, -10);
    assert_eq!(Vector4::from_vec_4(v4).to_vec_4(), v4);
}

#[test]
fn widening_fills_with_zero() {
    let v = Vector2::new(3, 4);
    assert_eq!(v.to_vec_4(), Vector4::new(3, 4, 0, 0));
    assert_eq!(Vector4::from_vec_2(v), Vector4::new(3, 4, 0, 0));
    assert_eq!(Vector1::new(5u32).to_vec_3(), Vector3::new(5u32, 0, 0));
    assert_eq!(Vector3::from_vec_1(Vector1::new(-2i64)), Vector3::new(-2i64, 0, 0));
}

#[test]
fn widening_then_narrowing_gives_back_the_vector() {
    let v = Vector2::new(3, 4);
    assert_eq!(v.to_vec_4().to_vec_2(), v);
    assert_eq!(v.to_vec_3().to_vec_2(), v);
    let u = Vector1::new(9);
    assert_eq!(Vector1::from_vec_4(Vector4::from_vec_1(u)), u);
    let w = Vector3::new(1, 2, 3);
    assert_eq!(w.to_vec_4().to_vec_3(), w);
}

#[test]
fn narrowing_drops_trailing_components() {
    let v = Vector4::new(1, 2, 3, 4);
    assert_eq!(v.to_vec_2(), Vector2::new(1, 2));
    assert_eq!(v.to_vec_1(), Vector1::new(1));
    assert_eq!(Vector3::from_vec_4(v), Vector3::new(1, 2, 3));
    assert_eq!(Vector2::from_vec_3(Vector3::new(6, 7, 8)), Vector2::new(6, 7));
}

#[test]
fn generic_resize() {
    let r: Vector3<i32> = resize(&Vector2::new(1, 2));
    assert_eq!(r, Vector3::new(1, 2, 0));
    let s: Vector1<i32> = resize(&Vector4::new(4, 3, 2, 1));
    assert_eq!(s, Vector1::new(4));
}

#[test]
fn sum_and_len() {
    assert_eq!(Vector4::new(1, 2, 3, 4).sum(), 10);
    assert_eq!(Vector3::new(1, -2, 3).sum(), 2);
    assert_eq!(Vector2::new(5u32, 6).sum(), 11);
    assert_eq!(Vector1::new(8).sum(), 8);
    assert_eq!(Vector1::new(0).len(), 1);
    assert_eq!(Vector2::new(0, 0).len(), 2);
    assert_eq!(Vector3::new(0, 0, 0).len(), 3);
    assert_eq!(Vector4::new(0, 0, 0, 0).len(), 4);
}

#[test]
fn same_dimension_arithmetic() {
    let a = Vector3::new(1, 2, 3);
    let b = Vector3::new(10, 20, 30);
    assert_eq!(a.add(b), Vector3::new(11, 22, 33));
    assert_eq!(b.sub(a), Vector3::new(9, 18, 27));
    assert_eq!(a.mul(b), Vector3::new(10, 40, 90));
}

#[test]
fn shorter_right_operand_leaves_the_rest_unchanged() {
    let a = Vector3::new(1, 2, 3);
    assert_eq!(a.add(Vector1::new(10)), Vector3::new(11, 2, 3));
    assert_eq!(a.sub(Vector2::new(10, 10)), Vector3::new(-9, -8, 3));
    assert_eq!(a.mul(Vector1::new(5)), Vector3::new(5, 2, 3));
    let b = Vector4::new(1, 1, 1, 1);
    assert_eq!(b.mul(Vector2::new(7, 8)), Vector4::new(7, 8, 1, 1));
}

#[test]
fn longer_right_operand_is_cut_to_the_left_dimension() {
    let a = Vector2::new(1, 2);
    assert_eq!(a.add(Vector4::new(10, 20, 30, 40)), Vector2::new(11, 22));
    assert_eq!(Vector1::new(5).mul(Vector3::new(3, 9, 9)), Vector1::new(15));
}

#[test]
fn cross_product_of_unit_vectors() {
    let x = Vector3::new(1, 0, 0);
    let y = Vector3::new(0, 1, 0);
    assert_eq!(x.cross(y), Vector3::new(0, 0, 1));
    assert_eq!(y.cross(x), Vector3::new(0, 0, -1));
}

#[test]
fn cross_product_is_anticommutative() {
    let a = Vector3::new(2, -3, 5);
    let b = Vector3::new(-1, 4, 7);
    let ab = a.cross(b);
    let ba = b.cross(a);
    assert_eq!(ab, Vector3::new(-41, -19, 5));
    assert_eq!(ab, Vector3::new(-ba.x, -ba.y, -ba.z));
}

#[test]
fn planar_cross_product() {
    let a = Vector2::new(1, 2);
    let b = Vector2::new(3, 4);
    assert_eq!(a.cross(b), Vector3::new(0, 0, -2));
    assert_eq!(b.cross(a), Vector3::new(0, 0, 2));
}

#[test]
fn get_in_and_out_of_range() {
    let v = Vector4::new(1, 2, 3, 4);
    assert_eq!(v.get(0), Some(1));
    assert_eq!(v.get(3), Some(4));
    assert_eq!(v.get(4), None);
    assert_eq!(v.get(5), None);
    assert_eq!(Vector1::new(1).get(1), None);
    assert_eq!(Vector2::new(1, 2).get(2), None);
    assert_eq!(Vector3::new(1, 2, 3).get(2), Some(3));
}

#[test]
fn set_in_and_out_of_range() {
    let mut v = Vector4::new(1, 2, 3, 4);
    assert_eq!(v.set(2, 30), Ok(()));
    assert_eq!(v, Vector4::new(1, 2, 30, 4));
    assert_eq!(v.set(5, 50), Err(OutOfRange));
    assert_eq!(v, Vector4::new(1, 2, 30, 4));
    let mut u = Vector2::new(1, 2);
    assert_eq!(u.set(2, 9), Err(OutOfRange));
    assert_eq!(u.set(1, 9), Ok(()));
    assert_eq!(u, Vector2::new(1, 9));
}

#[test]
fn iteration_walks_the_components_in_order() {
    let mut it = Vector3::new(4, 5, 6).iter();
    assert_eq!(it.next(), Some(4));
    assert_eq!(it.next(), Some(5));
    assert_eq!(it.next(), Some(6));
    assert_eq!(it.next(), None);
    assert_eq!(it.next(), None);
    let mut again = Vector3::new(4, 5, 6).iter();
    assert_eq!(again.next(), Some(4));
    let mut one = Vector1::new(9).iter();
    assert_eq!(one.next(), Some(9));
    assert_eq!(one.next(), None);
}
