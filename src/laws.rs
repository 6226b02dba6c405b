use vstd::prelude::*;

use crate::matrix::{
    Matrix3, Matrix4, column, dot4, identity, mat_mul3, mat_mul3_fits, mat_mul4,
    mat_mul4_fits, mat_vec4, resized, scaling4, translation4,
};
use crate::scalar::Scalar;
use crate::vector::{Vector, Vector3, Vector4, cross_vals, is_resize_of};

verus! {

/// A resize to the same dimension is the identity: converting a vector to its
/// own dimension and back (`to_vec_n(from_vec_n(v))`) gives `v` again.
pub proof fn lemma_same_dim_round_trip<T: Scalar, V: Vector<T>>(v: V, u: V, w: V)
    requires
        is_resize_of(u.comps(), v.comps()),
        is_resize_of(w.comps(), u.comps()),
    ensures
        u == v,
        w == v,
{
    v.lemma_dim();
    u.lemma_dim();
    w.lemma_dim();
    assert(u.comps() =~= v.comps());
    assert(w.comps() =~= u.comps());
    V::lemma_comps_injective(&u, &v);
    V::lemma_comps_injective(&w, &u);
}

/// Widening a vector to a larger dimension and narrowing it back gives the
/// original vector, and the widened components past the original ones are
/// the additive identity.
pub proof fn lemma_widen_narrow<T: Scalar, F: Vector<T>, W: Vector<T>>(v: F, u: W, w: F)
    requires
        u.comps().len() > v.comps().len(),
        is_resize_of(u.comps(), v.comps()),
        is_resize_of(w.comps(), u.comps()),
    ensures
        w == v,
        forall|i: int| v.comps().len() <= i < u.comps().len() ==> (#[trigger] u.comps()[i]).val() == 0,
{
    v.lemma_dim();
    w.lemma_dim();
    assert(w.comps() =~= v.comps());
    F::lemma_comps_injective(&w, &v);
}

/// Multiplying by one keeps a value and multiplying by zero gives zero.
proof fn lemma_unit_mul(c: int, v: int)
    ensures
        c == 1 ==> c * v == v && v * c == v,
        c == 0 ==> c * v == 0 && v * c == 0,
{
}

/// Every entry of a matrix is representable, so multiplying by the identity
/// on either side never leaves the scalar type.
proof fn lemma_identity_fits3<T: Scalar>(m: Matrix3<T>)
    ensures
        mat_mul3_fits::<T>(identity(3), m@),
        mat_mul3_fits::<T>(m@, identity(3)),
{
    assert forall|i: int, j: int| 0 <= i < 3 && 0 <= j < 3 implies T::in_range(#[trigger] m@[i][j]) by {
        T::lemma_val_in_range(m.values[i][j]);
    }
    T::lemma_identities_in_range();
}

/// Every entry of a matrix is representable, so multiplying by the identity
/// on either side never leaves the scalar type.
proof fn lemma_identity_fits4<T: Scalar>(m: Matrix4<T>)
    ensures
        mat_mul4_fits::<T>(identity(4), m@),
        mat_mul4_fits::<T>(m@, identity(4)),
{
    assert forall|i: int, j: int| 0 <= i < 4 && 0 <= j < 4 implies T::in_range(#[trigger] m@[i][j]) by {
        T::lemma_val_in_range(m.values[i][j]);
    }
    T::lemma_identities_in_range();
}

/// The identity is neutral for the 3 by 3 product on both sides, and both
/// products can always be computed.
pub proof fn lemma_identity_neutral3<T: Scalar>(m: Matrix3<T>)
    ensures
        mat_mul3_fits::<T>(identity(3), m@),
        mat_mul3_fits::<T>(m@, identity(3)),
        mat_mul3(identity(3), m@) == m@,
        mat_mul3(m@, identity(3)) == m@,
{
    lemma_identity_fits3(m);
    let (e, x) = (identity(3), m@);
    assert forall|i: int, j: int| 0 <= i < 3 && 0 <= j < 3 implies #[trigger] mat_mul3(e, x)[i][j] == x[i][j]
        && mat_mul3(x, e)[i][j] == x[i][j] by {
        lemma_unit_mul(e[i][0], x[0][j]);
        lemma_unit_mul(e[0][j], x[i][0]);
        lemma_unit_mul(e[i][1], x[1][j]);
        lemma_unit_mul(e[1][j], x[i][1]);
        lemma_unit_mul(e[i][2], x[2][j]);
        lemma_unit_mul(e[2][j], x[i][2]);
    }
    assert(mat_mul3(e, x) =~~= x);
    assert(mat_mul3(x, e) =~~= x);
}

/// The identity is neutral for the 4 by 4 product on both sides, and both
/// products can always be computed.
pub proof fn lemma_identity_neutral4<T: Scalar>(m: Matrix4<T>)
    ensures
        mat_mul4_fits::<T>(identity(4), m@),
        mat_mul4_fits::<T>(m@, identity(4)),
        mat_mul4(identity(4), m@) == m@,
        mat_mul4(m@, identity(4)) == m@,
{
    lemma_identity_fits4(m);
    let (e, x) = (identity(4), m@);
    assert forall|i: int, j: int| 0 <= i < 4 && 0 <= j < 4 implies #[trigger] mat_mul4(e, x)[i][j] == x[i][j]
        && mat_mul4(x, e)[i][j] == x[i][j] by {
        lemma_unit_mul(e[i][0], x[0][j]);
        lemma_unit_mul(e[0][j], x[i][0]);
        lemma_unit_mul(e[i][1], x[1][j]);
        lemma_unit_mul(e[1][j], x[i][1]);
        lemma_unit_mul(e[i][2], x[2][j]);
        lemma_unit_mul(e[2][j], x[i][2]);
        lemma_unit_mul(e[i][3], x[3][j]);
        lemma_unit_mul(e[3][j], x[i][3]);
    }
    assert(mat_mul4(e, x) =~~= x);
    assert(mat_mul4(x, e) =~~= x);
}

/// A 3 by 3 matrix is rebuilt exactly from its rows, and from its columns.
pub proof fn lemma_rows_columns_round_trip3<T: Scalar>(
    m: Matrix3<T>,
    rows: [Vector3<T>; 3],
    by_rows: Matrix3<T>,
    columns: [Vector3<T>; 3],
    by_columns: Matrix3<T>,
)
    requires
        forall|i: int| 0 <= i < 3 ==> (#[trigger] rows[i]).comps() == m.values[i]@,
        forall|i: int, j: int| 0 <= i < 3 && 0 <= j < 3 ==> #[trigger] by_rows.values[i][j] == rows[i].comps()[j],
        forall|j: int| 0 <= j < 3 ==> (#[trigger] columns[j]).comps() == Seq::new(3, |k: int| m.values[k][j]),
        forall|i: int, j: int| 0 <= i < 3 && 0 <= j < 3 ==> #[trigger] by_columns.values[i][j] == columns[j].comps()[i],
    ensures
        by_rows == m,
        by_columns == m,
{
    assert forall|i: int| 0 <= i < 3 implies #[trigger] by_rows.values[i] == m.values[i] && by_columns.values[i] == m.values[i] by {
        assert forall|j: int| 0 <= j < 3 implies #[trigger] by_rows.values[i][j] == m.values[i][j] && by_columns.values[i][j] == m.values[i][j] by {
            assert(rows[i].comps()[j] == m.values[i]@[j]);
            assert(columns[j].comps()[i] == m.values[i][j]);
        }
        assert(by_rows.values[i] =~= m.values[i]);
        assert(by_columns.values[i] =~= m.values[i]);
    }
    assert(by_rows.values =~= m.values);
    assert(by_columns.values =~= m.values);
}

/// A 4 by 4 matrix is rebuilt exactly from its rows, and from its columns.
pub proof fn lemma_rows_columns_round_trip4<T: Scalar>(
    m: Matrix4<T>,
    rows: [Vector4<T>; 4],
    by_rows: Matrix4<T>,
    columns: [Vector4<T>; 4],
    by_columns: Matrix4<T>,
)
    requires
        forall|i: int| 0 <= i < 4 ==> (#[trigger] rows[i]).comps() == m.values[i]@,
        forall|i: int, j: int| 0 <= i < 4 && 0 <= j < 4 ==> #[trigger] by_rows.values[i][j] == rows[i].comps()[j],
        forall|j: int| 0 <= j < 4 ==> (#[trigger] columns[j]).comps() == Seq::new(4, |k: int| m.values[k][j]),
        forall|i: int, j: int| 0 <= i < 4 && 0 <= j < 4 ==> #[trigger] by_columns.values[i][j] == columns[j].comps()[i],
    ensures
        by_rows == m,
        by_columns == m,
{
    assert forall|i: int| 0 <= i < 4 implies #[trigger] by_rows.values[i] == m.values[i] && by_columns.values[i] == m.values[i] by {
        assert forall|j: int| 0 <= j < 4 implies #[trigger] by_rows.values[i][j] == m.values[i][j] && by_columns.values[i][j] == m.values[i][j] by {
            assert(rows[i].comps()[j] == m.values[i]@[j]);
            assert(columns[j].comps()[i] == m.values[i][j]);
        }
        assert(by_rows.values[i] =~= m.values[i]);
        assert(by_columns.values[i] =~= m.values[i]);
    }
    assert(by_rows.values =~= m.values);
    assert(by_columns.values =~= m.values);
}

/// Translating the identity by `v` and applying the result to the origin
/// `(0, 0, 0, 1)` gives the first three components of `v` (a missing one
/// counting as zero) followed by 1.
pub proof fn lemma_mul_translated_origin(v: Seq<int>)
    ensures
        mat_vec4(mat_mul4(identity(4), translation4(resized(v, 3))), seq![0int, 0, 0, 1])
            == resized(v, 3).push(1),
{
    let t = translation4(resized(v, 3));
    assert(mat_mul4(identity(4), t) =~~= t);
    let o = seq![0int, 0, 0, 1];
    assert forall|i: int| 0 <= i < 4 implies #[trigger] mat_vec4(t, o)[i] == t[i][3] by {
        lemma_unit_mul(0, t[i][0]);
        lemma_unit_mul(0, t[i][1]);
        lemma_unit_mul(0, t[i][2]);
        lemma_unit_mul(1, t[i][3]);
    }
    assert(mat_vec4(t, o) =~= resized(v, 3).push(1));
}

/// The scaling by the first three components of `v` (a missing one counting
/// as zero) multiplies those components of a point `p` and keeps its last one.
pub proof fn lemma_mul_scaled_point(v: Seq<int>, p: Seq<int>)
    requires
        p.len() == 4,
    ensures
        mat_vec4(scaling4(resized(v, 3)), p) == seq![
            resized(v, 3)[0] * p[0],
            resized(v, 3)[1] * p[1],
            resized(v, 3)[2] * p[2],
            p[3],
        ],
{
    let s = scaling4(resized(v, 3));
    assert forall|i: int| 0 <= i < 4 implies #[trigger] mat_vec4(s, p)[i] == s[i][i] * p[i] by {
        lemma_unit_mul(s[i][0], p[0]);
        lemma_unit_mul(s[i][1], p[1]);
        lemma_unit_mul(s[i][2], p[2]);
        lemma_unit_mul(s[i][3], p[3]);
    }
    lemma_unit_mul(1, p[3]);
    assert(mat_vec4(s, p) =~= seq![
        resized(v, 3)[0] * p[0],
        resized(v, 3)[1] * p[1],
        resized(v, 3)[2] * p[2],
        p[3],
    ]);
}

/// The cross product is anti-commutative: `a × b == -(b × a)`.
pub proof fn lemma_cross_anticommutative(a: Seq<int>, b: Seq<int>)
    ensures
        forall|i: int| 0 <= i < 3 ==> #[trigger] cross_vals(a, b)[i] == -cross_vals(b, a)[i],
{
    assert(a[1] * b[2] == b[2] * a[1]) by (nonlinear_arith);
    assert(a[2] * b[1] == b[1] * a[2]) by (nonlinear_arith);
    assert(a[2] * b[0] == b[0] * a[2]) by (nonlinear_arith);
    assert(a[0] * b[2] == b[2] * a[0]) by (nonlinear_arith);
    assert(a[0] * b[1] == b[1] * a[0]) by (nonlinear_arith);
    assert(a[1] * b[0] == b[0] * a[1]) by (nonlinear_arith);
}

/// Summing row `r` against the columns of `y` and then against `k` is
/// summing `r` against the rows of `y` taken against `k`.
proof fn lemma_dot4_reassociate(r: Seq<int>, y: Seq<Seq<int>>, k: Seq<int>)
    requires
        y.len() == 4,
    ensures
        dot4(seq![dot4(r, column(y, 0)), dot4(r, column(y, 1)), dot4(r, column(y, 2)), dot4(r, column(y, 3))], k)
            == dot4(r, seq![dot4(y[0], k), dot4(y[1], k), dot4(y[2], k), dot4(y[3], k)]),
{
    assert((r[0] * y[0][0] + r[1] * y[1][0] + r[2] * y[2][0] + r[3] * y[3][0]) * k[0] == r[0] * y[0][0] * k[0] + r[1] * y[1][0] * k[0] + r[2] * y[2][0] * k[0] + r[3] * y[3][0] * k[0]) by (nonlinear_arith);
    assert((r[0] * y[0][1] + r[1] * y[1][1] + r[2] * y[2][1] + r[3] * y[3][1]) * k[1] == r[0] * y[0][1] * k[1] + r[1] * y[1][1] * k[1] + r[2] * y[2][1] * k[1] + r[3] * y[3][1] * k[1]) by (nonlinear_arith);
    assert((r[0] * y[0][2] + r[1] * y[1][2] + r[2] * y[2][2] + r[3] * y[3][2]) * k[2] == r[0] * y[0][2] * k[2] + r[1] * y[1][2] * k[2] + r[2] * y[2][2] * k[2] + r[3] * y[3][2] * k[2]) by (nonlinear_arith);
    assert((r[0] * y[0][3] + r[1] * y[1][3] + r[2] * y[2][3] + r[3] * y[3][3]) * k[3] == r[0] * y[0][3] * k[3] + r[1] * y[1][3] * k[3] + r[2] * y[2][3] * k[3] + r[3] * y[3][3] * k[3]) by (nonlinear_arith);
    assert(r[0] * (y[0][0] * k[0] + y[0][1] * k[1] + y[0][2] * k[2] + y[0][3] * k[3]) == r[0] * (y[0][0] * k[0]) + r[0] * (y[0][1] * k[1]) + r[0] * (y[0][2] * k[2]) + r[0] * (y[0][3] * k[3])) by (nonlinear_arith);
    assert(r[1] * (y[1][0] * k[0] + y[1][1] * k[1] + y[1][2] * k[2] + y[1][3] * k[3]) == r[1] * (y[1][0] * k[0]) + r[1] * (y[1][1] * k[1]) + r[1] * (y[1][2] * k[2]) + r[1] * (y[1][3] * k[3])) by (nonlinear_arith);
    assert(r[2] * (y[2][0] * k[0] + y[2][1] * k[1] + y[2][2] * k[2] + y[2][3] * k[3]) == r[2] * (y[2][0] * k[0]) + r[2] * (y[2][1] * k[1]) + r[2] * (y[2][2] * k[2]) + r[2] * (y[2][3] * k[3])) by (nonlinear_arith);
    assert(r[3] * (y[3][0] * k[0] + y[3][1] * k[1] + y[3][2] * k[2] + y[3][3] * k[3]) == r[3] * (y[3][0] * k[0]) + r[3] * (y[3][1] * k[1]) + r[3] * (y[3][2] * k[2]) + r[3] * (y[3][3] * k[3])) by (nonlinear_arith);
    assert(r[0] * y[0][0] * k[0] == r[0] * (y[0][0] * k[0])) by (nonlinear_arith);
    assert(r[0] * y[0][1] * k[1] == r[0] * (y[0][1] * k[1])) by (nonlinear_arith);
    assert(r[0] * y[0][2] * k[2] == r[0] * (y[0][2] * k[2])) by (nonlinear_arith);
    assert(r[0] * y[0][3] * k[3] == r[0] * (y[0][3] * k[3])) by (nonlinear_arith);
    assert(r[1] * y[1][0] * k[0] == r[1] * (y[1][0] * k[0])) by (nonlinear_arith);
    assert(r[1] * y[1][1] * k[1] == r[1] * (y[1][1] * k[1])) by (nonlinear_arith);
    assert(r[1] * y[1][2] * k[2] == r[1] * (y[1][2] * k[2])) by (nonlinear_arith);
    assert(r[1] * y[1][3] * k[3] == r[1] * (y[1][3] * k[3])) by (nonlinear_arith);
    assert(r[2] * y[2][0] * k[0] == r[2] * (y[2][0] * k[0])) by (nonlinear_arith);
    assert(r[2] * y[2][1] * k[1] == r[2] * (y[2][1] * k[1])) by (nonlinear_arith);
    assert(r[2] * y[2][2] * k[2] == r[2] * (y[2][2] * k[2])) by (nonlinear_arith);
    assert(r[2] * y[2][3] * k[3] == r[2] * (y[2][3] * k[3])) by (nonlinear_arith);
    assert(r[3] * y[3][0] * k[0] == r[3] * (y[3][0] * k[0])) by (nonlinear_arith);
    assert(r[3] * y[3][1] * k[1] == r[3] * (y[3][1] * k[1])) by (nonlinear_arith);
    assert(r[3] * y[3][2] * k[2] == r[3] * (y[3][2] * k[2])) by (nonlinear_arith);
    assert(r[3] * y[3][3] * k[3] == r[3] * (y[3][3] * k[3])) by (nonlinear_arith);
}

/// The 4 by 4 product is associative.
pub proof fn lemma_mul_associative4<T: Scalar>(a: Matrix4<T>, b: Matrix4<T>, c: Matrix4<T>)
    ensures
        mat_mul4(mat_mul4(a@, b@), c@) == mat_mul4(a@, mat_mul4(b@, c@)),
{
    let (x, y, z) = (a@, b@, c@);
    assert forall|i: int, j: int| 0 <= i < 4 && 0 <= j < 4 implies #[trigger] mat_mul4(mat_mul4(x, y), z)[i][j]
        == mat_mul4(x, mat_mul4(y, z))[i][j] by {
        let (r, k) = (x[i], column(z, j));
        assert(mat_mul4(x, y)[i] =~= seq![
            dot4(r, column(y, 0)), dot4(r, column(y, 1)), dot4(r, column(y, 2)), dot4(r, column(y, 3))
        ]);
        assert(column(mat_mul4(y, z), j) =~= seq![dot4(y[0], k), dot4(y[1], k), dot4(y[2], k), dot4(y[3], k)]);
        lemma_dot4_reassociate(r, y, k);
    }
    assert(mat_mul4(mat_mul4(x, y), z) =~~= mat_mul4(x, mat_mul4(y, z)));
}

} // verus!
