use linear_algebra::coords::Axis;
use linear_algebra::matrix::{Matrix, Matrix3, Matrix4};
use linear_algebra::vector::{Vector2, Vector3, Vector4};
use linear_algebra::OutOfRange;

fn sample_a() -> Matrix4<i32> {
    Matrix4::new([[11, 12, 13, 14], [21, 22, 23, 24], [31, 32, 33, 34], [41, 42, 43, 44]])
}

fn sample_b() -> Matrix4<i32> {
    Matrix4::new([[51, 52, 53, 54], [61, 62, 63, 64], [71, 72, 73, 74], [81, 82, 83, 84]])
}

#[test]
fn identity_matrices() {
    assert_eq!(
        Matrix4::<i32>::identity_matrix().values,
        [[1, 0, 0, 0], [0, 1, 0, 0], [0, 0, 1, 0], [0, 0, 0, 1]]
    );
    assert_eq!(Matrix3::<u32>::identity_matrix().values, [[1, 0, 0], [0, 1, 0], [0, 0, 1]]);
}

#[test]
fn identity_is_neutral_for_the_product() {
    let m = sample_a();
    let e = Matrix4::identity_matrix();
    assert_eq!(e.mul(m), m);
    assert_eq!(m.mul(e), m);
    let n = Matrix3::new([[1, 2, 3], [4, 5, 6], [7, 8, 10]]);
    let f = Matrix3::identity_matrix();
    assert_eq!(f.mul(n), n);
    assert_eq!(n.mul(f), n);
}

#[test]
fn product_of_4_by_4_matrices() {
    assert_eq!(
        sample_a().mul(sample_b()).values,
        [
            [3350, 3400, 3450, 3500],
            [5990, 6080, 6170, 6260],
            [8630, 8760, 8890, 9020],
            [11270, 11440, 11610, 11780]
        ]
    );
}

#[test]
fn product_is_associative_but_not_commutative() {
    let a = sample_a();
    let b = sample_b();
    let c = Matrix4::new([[1, 0, 2, 0], [0, 3, 0, 1], [1, 1, 0, 0], [0, 0, 1, 2]]);
    assert_ne!(a.mul(b), b.mul(a));
    assert_eq!(
        b.mul(a).values,
        [[5510, 5720, 5930, 6140], [6550, 6800, 7050, 7300], [7590, 7880, 8170, 8460], [8630, 8960, 9290, 9620]]
    );
    assert_eq!(a.mul(b).mul(c), a.mul(b.mul(c)));
}

#[test]
fn product_of_3_by_3_matrices_uses_the_right_operand_columns() {
    let c = Matrix3::new([[1, 2, 3], [4, 5, 6], [7, 8, 10]]);
    let d = Matrix3::new([[2, 0, 1], [1, 3, 0], [0, 1, 4]]);
    assert_eq!(c.mul(d).values, [[4, 9, 13], [13, 21, 28], [22, 34, 47]]);
}

#[test]
fn matrix_vector_product() {
    let c = Matrix3::new([[1, 2, 3], [4, 5, 6], [7, 8, 10]]);
    assert_eq!(c.mul_vector(Vector3::new(1, 2, 3)), Vector3::new(14, 32, 53));
    let m = Matrix4::<i64>::identity_matrix();
    assert_eq!(m.mul_vector(Vector4::new(1, 2, 3, 4)), Vector4::new(1, 2, 3, 4));
}

#[test]
fn entry_wise_sum_and_difference() {
    let a = Matrix3::new([[1, 2, 3], [4, 5, 6], [7, 8, 9]]);
    let b = Matrix3::new([[9, 8, 7], [6, 5, 4], [3, 2, 1]]);
    assert_eq!(a.add(b).values, [[10, 10, 10], [10, 10, 10], [10, 10, 10]]);
    assert_eq!(a.sub(b).values, [[-8, -6, -4], [-2, 0, 2], [4, 6, 8]]);
    let s = sample_b().sub(sample_a());
    assert_eq!(s.values, [[40; 4]; 4]);
    assert_eq!(sample_a().add(s), sample_b());
}

#[test]
fn translating_the_identity_moves_the_origin() {
    let m = Matrix4::<i32>::identity_matrix().translate(Vector3::new(1, 2, 3));
    assert_eq!(m.mul_vector(Vector4::new(0, 0, 0, 1)), Vector4::new(1, 2, 3, 1));
    assert_eq!(m.mul_vector(Vector4::new(1, 1, 1, 0)), Vector4::new(1, 1, 1, 0));
}

#[test]
fn translation_matrix_puts_the_vector_in_the_last_column() {
    assert_eq!(
        Matrix4::translation_matrix(Vector3::new(5, 6, 7)).values,
        [[1, 0, 0, 5], [0, 1, 0, 6], [0, 0, 1, 7], [0, 0, 0, 1]]
    );
    assert_eq!(
        Matrix4::translation_matrix(Vector2::new(5, 6)).values,
        [[1, 0, 0, 5], [0, 1, 0, 6], [0, 0, 1, 0], [0, 0, 0, 1]]
    );
    assert_eq!(
        Matrix4::translation_matrix(Vector4::new(5, 6, 7, 8)).values,
        [[1, 0, 0, 5], [0, 1, 0, 6], [0, 0, 1, 7], [0, 0, 0, 1]]
    );
}

#[test]
fn scaling_matrix_scales_a_point() {
    let s = Matrix4::scaling_matrix(Vector3::new(2, 3, 4));
    assert_eq!(s.values, [[2, 0, 0, 0], [0, 3, 0, 0], [0, 0, 4, 0], [0, 0, 0, 1]]);
    assert_eq!(s.mul_vector(Vector4::new(1, 1, 1, 1)), Vector4::new(2, 3, 4, 1));
}

#[test]
fn transforms_compose_to_the_right() {
    let m = Matrix4::<i32>::identity_matrix()
        .scale(Vector3::new(2, 2, 2))
        .translate(Vector3::new(1, 2, 3));
    assert_eq!(m.mul_vector(Vector4::new(0, 0, 0, 1)), Vector4::new(2, 4, 6, 1));
    let n = Matrix4::<i32>::identity_matrix()
        .translate(Vector3::new(1, 2, 3))
        .scale(Vector3::new(2, 2, 2));
    assert_eq!(n.mul_vector(Vector4::new(0, 0, 0, 1)), Vector4::new(1, 2, 3, 1));
}

#[test]
fn rows_and_columns() {
    let m = Matrix3::new([[1, 2, 3], [4, 5, 6], [7, 8, 9]]);
    assert_eq!(m.as_vectors_rows(), [Vector3::new(1, 2, 3), Vector3::new(4, 5, 6), Vector3::new(7, 8, 9)]);
    assert_eq!(m.as_vectors_collumns(), [Vector3::new(1, 4, 7), Vector3::new(2, 5, 8), Vector3::new(3, 6, 9)]);
    assert_eq!(Matrix3::from_rows(m.as_vectors_rows()), m);
    assert_eq!(Matrix3::from_columns(m.as_vectors_collumns()), m);
    let a = sample_a();
    assert_eq!(a.as_vectors_collumns()[1], Vector4::new(12, 22, 32, 42));
    assert_eq!(Matrix4::from_rows(a.as_vectors_rows()), a);
    assert_eq!(Matrix4::from_columns(a.as_vectors_collumns()), a);
}

#[test]
fn entry_access() {
    let mut m = sample_a();
    assert_eq!(m.get(1, 2), Some(23));
    assert_eq!(m.get(4, 0), None);
    assert_eq!(m.get(0, 5), None);
    assert_eq!(m.set(3, 0, 0), Ok(()));
    assert_eq!(m.get(3, 0), Some(0));
    assert_eq!(m.set(0, 4, 1), Err(OutOfRange));
    let mut n = Matrix3::new([[1, 2, 3], [4, 5, 6], [7, 8, 9]]);
    assert_eq!(n.get(2, 2), Some(9));
    assert_eq!(n.get(3, 2), None);
    assert_eq!(n.set(3, 3, 0), Err(OutOfRange));
    assert_eq!(n, Matrix3::new([[1, 2, 3], [4, 5, 6], [7, 8, 9]]));
}

#[test]
fn sizes() {
    assert_eq!(Matrix3::<i32>::size(), (3, 3));
    assert_eq!(Matrix4::<u64>::size(), (4, 4));
}

#[test]
fn axis_unit_vectors() {
    assert_eq!(Axis::X.unit::<i32>(), Vector3::new(1, 0, 0));
    assert_eq!(Axis::Y.unit::<i32>(), Vector3::new(0, 1, 0));
    assert_eq!(Axis::Z.unit::<u32>(), Vector3::new(0, 0, 1));
}

#[test]
fn checked_products_match_or_report_overflow() {
    let a = sample_a();
    let b = sample_b();
    assert_eq!(a.checked_mul(b), Some(a.mul(b)));
    assert_eq!(a.checked_mul_vector(Vector4::new(1, 0, 0, 1)), Some(Vector4::new(25, 45, 65, 85)));
    let big = Matrix4::new([[i32::MAX, 0, 0, 0], [0, 1, 0, 0], [0, 0, 1, 0], [0, 0, 0, 1]]);
    assert_eq!(big.checked_mul(Matrix4::scaling_matrix(Vector3::new(2, 1, 1))), None);
    assert_eq!(big.checked_mul_vector(Vector4::new(2, 0, 0, 0)), None);
    let near = Matrix3::new([[i32::MAX, 1, 0], [0, 1, 0], [0, 0, 1]]);
    assert_eq!(near.checked_mul(Matrix3::new([[1, 0, 0], [1, 1, 0], [0, 0, 1]])), None);
    assert_eq!(near.checked_mul(Matrix3::identity_matrix()), Some(near));
    assert_eq!(Matrix3::new([[0u32, 0, 0], [0, 0, 0], [0, 0, 0]]).checked_mul_vector(Vector3::new(1, 2, 3)), Some(Vector3::new(0, 0, 0)));
}
