use vstd::prelude::*;

use crate::scalar::Scalar;

verus! {

/// A square matrix of fixed size.
pub trait Matrix {
    /// The number of rows, which is also the number of columns.
    spec fn dim() -> nat;

    /// The number of rows and the number of columns.
    fn size() -> (r: (usize, usize))
        ensures
            r.0 == Self::dim(),
            r.1 == Self::dim(),
    ;
}

/// A 3 by 3 matrix, stored row by row: `values[row][col]`.
#[derive(Debug, Clone, Copy, PartialEq, Eq)]
pub struct Matrix3<T> {
    pub values: [[T; 3]; 3],
}

/// A 4 by 4 matrix, stored row by row: `values[row][col]`.
#[derive(Debug, Clone, Copy, PartialEq, Eq)]
pub struct Matrix4<T> {
    pub values: [[T; 4]; 4],
}

/// Another name for `Matrix4`.
pub type FourByFourMatrix<T> = Matrix4<T>;

/// The `n` by `n` identity matrix.
pub open spec fn identity(n: nat) -> Seq<Seq<int>> {
    Seq::new(n, |i: int| Seq::new(n, |j: int| if i == j { 1 } else { 0 }))
}

/// Column `j` of `m`, top to bottom.
pub open spec fn column(m: Seq<Seq<int>>, j: int) -> Seq<int> {
    Seq::new(m.len(), |k: int| m[k][j])
}

/// `a` and `b` combined entry by entry with `f`.
pub open spec fn zip_grid(a: Seq<Seq<int>>, b: Seq<Seq<int>>, f: spec_fn(int, int) -> int) -> Seq<Seq<int>> {
    Seq::new(a.len(), |i: int| Seq::new(a[i].len(), |j: int| f(a[i][j], b[i][j])))
}

/// Every entry of `zip_grid(a, b, f)` is representable in `T`.
pub open spec fn grid_fits<T: Scalar>(a: Seq<Seq<int>>, b: Seq<Seq<int>>, f: spec_fn(int, int) -> int) -> bool {
    forall|i: int, j: int| 0 <= i < a.len() && 0 <= j < a[i].len() ==> T::in_range(#[trigger] f(a[i][j], b[i][j]))
}

/// The dot product of two three-component sequences.
pub open spec fn dot3(a: Seq<int>, b: Seq<int>) -> int {
    a[0] * b[0] + a[1] * b[1] + a[2] * b[2]
}

/// The dot product of two four-component sequences.
pub open spec fn dot4(a: Seq<int>, b: Seq<int>) -> int {
    a[0] * b[0] + a[1] * b[1] + a[2] * b[2] + a[3] * b[3]
}

/// Every product, and every partial sum of the products taken left to right,
/// met while computing `dot3(a, b)` is representable in `T`.
pub open spec fn dot3_fits<T: Scalar>(a: Seq<int>, b: Seq<int>) -> bool {
    &&& T::in_range(a[0] * b[0]) && T::in_range(a[1] * b[1]) && T::in_range(a[2] * b[2])
    &&& T::in_range(a[0] * b[0] + a[1] * b[1])
    &&& T::in_range(dot3(a, b))
}

/// Every product, and every partial sum of the products taken left to right,
/// met while computing `dot4(a, b)` is representable in `T`.
pub open spec fn dot4_fits<T: Scalar>(a: Seq<int>, b: Seq<int>) -> bool {
    &&& T::in_range(a[0] * b[0]) && T::in_range(a[1] * b[1])
    &&& T::in_range(a[2] * b[2]) && T::in_range(a[3] * b[3])
    &&& T::in_range(a[0] * b[0] + a[1] * b[1])
    &&& T::in_range(a[0] * b[0] + a[1] * b[1] + a[2] * b[2])
    &&& T::in_range(dot4(a, b))
}

/// The product of two 3 by 3 matrices: entry `(i, j)` is the dot product of
/// row `i` of `a` and column `j` of `b`.
pub open spec fn mat_mul3(a: Seq<Seq<int>>, b: Seq<Seq<int>>) -> Seq<Seq<int>> {
    Seq::new(3, |i: int| Seq::new(3, |j: int| dot3(a[i], column(b, j))))
}

/// The product of two 4 by 4 matrices: entry `(i, j)` is the dot product of
/// row `i` of `a` and column `j` of `b`.
pub open spec fn mat_mul4(a: Seq<Seq<int>>, b: Seq<Seq<int>>) -> Seq<Seq<int>> {
    Seq::new(4, |i: int| Seq::new(4, |j: int| dot4(a[i], column(b, j))))
}

/// Every product and partial sum met while computing `mat_mul3(a, b)` is
/// representable in `T`.
pub open spec fn mat_mul3_fits<T: Scalar>(a: Seq<Seq<int>>, b: Seq<Seq<int>>) -> bool {
    forall|i: int, j: int| 0 <= i < 3 && 0 <= j < 3 ==> #[trigger] dot3_fits::<T>(a[i], column(b, j))
}

/// Every product and partial sum met while computing `mat_mul4(a, b)` is
/// representable in `T`.
pub open spec fn mat_mul4_fits<T: Scalar>(a: Seq<Seq<int>>, b: Seq<Seq<int>>) -> bool {
    forall|i: int, j: int| 0 <= i < 4 && 0 <= j < 4 ==> #[trigger] dot4_fits::<T>(a[i], column(b, j))
}

/// The product of a 3 by 3 matrix and a column vector.
pub open spec fn mat_vec3(a: Seq<Seq<int>>, v: Seq<int>) -> Seq<int> {
    Seq::new(3, |i: int| dot3(a[i], v))
}

/// The product of a 4 by 4 matrix and a column vector.
pub open spec fn mat_vec4(a: Seq<Seq<int>>, v: Seq<int>) -> Seq<int> {
    Seq::new(4, |i: int| dot4(a[i], v))
}

/// Every product and partial sum met while computing `mat_vec3(a, v)` is
/// representable in `T`.
pub open spec fn mat_vec3_fits<T: Scalar>(a: Seq<Seq<int>>, v: Seq<int>) -> bool {
    forall|i: int| 0 <= i < 3 ==> #[trigger] dot3_fits::<T>(a[i], v)
}

/// Every product and partial sum met while computing `mat_vec4(a, v)` is
/// representable in `T`.
pub open spec fn mat_vec4_fits<T: Scalar>(a: Seq<Seq<int>>, v: Seq<int>) -> bool {
    forall|i: int| 0 <= i < 4 ==> #[trigger] dot4_fits::<T>(a[i], v)
}

/// `v` resized to `n` components: trailing ones dropped, missing ones zero.
pub open spec fn resized(v: Seq<int>, n: nat) -> Seq<int> {
    Seq::new(n, |i: int| if i < v.len() { v[i] } else { 0 })
}

/// The 4 by 4 translation by `t`: the identity with `t[i]` at row `i` of the
/// last column, for `i` below 3.
pub open spec fn translation4(t: Seq<int>) -> Seq<Seq<int>> {
    Seq::new(4, |i: int| Seq::new(4, |j: int| if j == 3 && i < 3 { t[i] } else if i == j { 1 } else { 0 }))
}

/// The 4 by 4 scaling by `s`: the identity with `s[i]` at diagonal entry `i`,
/// for `i` below 3.
pub open spec fn scaling4(s: Seq<int>) -> Seq<Seq<int>> {
    Seq::new(4, |i: int| Seq::new(4, |j: int| if i == j { if i < 3 { s[i] } else { 1 } } else { 0 }))
}

} // verus!
