use vstd::prelude::*;

use crate::scalar::Scalar;
use crate::OutOfRange;
use crate::matrix::{
    Matrix, Matrix4, dot4, dot4_fits, mat_mul4, mat_mul4_fits, mat_vec4, mat_vec4_fits, column,
    identity, zip_grid, grid_fits, translation4, scaling4, resized,
};
use crate::vector::{Vector, Vector4, vals, sum_op, diff_op, prod_op, zip_prefix, ToVector3};

verus! {

impl<T: Scalar> View for Matrix4<T> {
    type V = Seq<Seq<int>>;

    /// The entries as integers, row by row: `self@[r][c]` is row `r`, column `c`.
    open spec fn view(&self) -> Seq<Seq<int>> {
        Seq::new(4, |r: int| Seq::new(4, |c: int| self.values[r][c].val()))
    }
}

impl<T: Scalar> Matrix for Matrix4<T> {
    open spec fn dim() -> nat {
        4
    }

    fn size() -> (r: (usize, usize)) {
        (4, 4)
    }
}

impl<T: Scalar> Matrix4<T> {
    pub fn new(values: [[T; 4]; 4]) -> (r: Self)
        ensures
            r.values == values,
    {
        Matrix4 { values }
    }

    /// The entry at row `row` and column `col`, or `None` when either index is
    /// not below 4.
    pub fn get(&self, row: usize, col: usize) -> (r: Option<T>)
        ensures
            r == if row < 4 && col < 4 {
                Some(self.values[row as int][col as int])
            } else {
                None
            },
    {
        if row < 4 && col < 4 {
            Some(self.values[row][col])
        } else {
            None
        }
    }

    /// Replaces the entry at row `row` and column `col`; fails, changing
    /// nothing, when either index is not below 4.
    pub fn set(&mut self, row: usize, col: usize, v: T) -> (r: Result<(), OutOfRange>)
        ensures
            row < 4 && col < 4 ==> r is Ok && forall|i: int, j: int|
                0 <= i < 4 && 0 <= j < 4 ==> #[trigger] final(self).values[i][j] == if i == row && j == col {
                    v
                } else {
                    old(self).values[i][j]
                },
            !(row < 4 && col < 4) ==> r is Err && *final(self) == *old(self),
    {
        if row < 4 && col < 4 {
            let mut line = self.values[row];
            line.set(col, v);
            self.values.set(row, line);
            Ok(())
        } else {
            Err(OutOfRange)
        }
    }

    /// The rows, top to bottom, each an independent copy.
    pub fn as_vectors_rows(&self) -> (r: [Vector4<T>; 4])
        ensures
            forall|i: int| 0 <= i < 4 ==> (#[trigger] r[i]).comps() == self.values[i]@,
    {
        let v = &self.values;
        let r = [
            Vector4::new(v[0][0], v[0][1], v[0][2], v[0][3]),
            Vector4::new(v[1][0], v[1][1], v[1][2], v[1][3]),
            Vector4::new(v[2][0], v[2][1], v[2][2], v[2][3]),
            Vector4::new(v[3][0], v[3][1], v[3][2], v[3][3]),
        ];
        proof {
            assert forall|i: int| 0 <= i < 4 implies (#[trigger] r[i]).comps() == self.values[i]@ by {
                assert(r[i].comps() =~= self.values[i]@);
            }
        }
        r
    }

    /// The columns, left to right, each an independent copy.
    pub fn as_vectors_collumns(&self) -> (r: [Vector4<T>; 4])
        ensures
            forall|j: int| 0 <= j < 4 ==> (#[trigger] r[j]).comps() == Seq::new(4, |k: int| self.values[k][j]),
    {
        let v = &self.values;
        let r = [
            Vector4::new(v[0][0], v[1][0], v[2][0], v[3][0]),
            Vector4::new(v[0][1], v[1][1], v[2][1], v[3][1]),
            Vector4::new(v[0][2], v[1][2], v[2][2], v[3][2]),
            Vector4::new(v[0][3], v[1][3], v[2][3], v[3][3]),
        ];
        proof {
            assert forall|j: int| 0 <= j < 4 implies (#[trigger] r[j]).comps() == Seq::new(4, |k: int| self.values[k][j]) by {
                assert(r[j].comps() =~= Seq::new(4, |k: int| self.values[k][j]));
            }
        }
        r
    }

    /// The matrix whose rows are `rows`, top to bottom.
    pub fn from_rows(rows: [Vector4<T>; 4]) -> (r: Self)
        ensures
            forall|i: int, j: int| 0 <= i < 4 && 0 <= j < 4 ==> #[trigger] r.values[i][j] == rows[i].comps()[j],
    {
        Matrix4 { values: [
            [rows[0].x, rows[0].y, rows[0].z, rows[0].w],
            [rows[1].x, rows[1].y, rows[1].z, rows[1].w],
            [rows[2].x, rows[2].y, rows[2].z, rows[2].w],
            [rows[3].x, rows[3].y, rows[3].z, rows[3].w],
        ] }
    }

    /// The matrix whose columns are `columns`, left to right.
    pub fn from_columns(columns: [Vector4<T>; 4]) -> (r: Self)
        ensures
            forall|i: int, j: int| 0 <= i < 4 && 0 <= j < 4 ==> #[trigger] r.values[i][j] == columns[j].comps()[i],
    {
        Matrix4 { values: [
            [columns[0].x, columns[1].x, columns[2].x, columns[3].x],
            [columns[0].y, columns[1].y, columns[2].y, columns[3].y],
            [columns[0].z, columns[1].z, columns[2].z, columns[3].z],
            [columns[0].w, columns[1].w, columns[2].w, columns[3].w],
        ] }
    }

    /// The identity matrix: one on the diagonal, zero elsewhere.
    pub fn identity_matrix() -> (r: Self)
        ensures
            r@ == identity(4),
    {
        let (o, z) = (T::one(), T::zero());
        let r = Matrix4 { values: [
            [o, z, z, z],
            [z, o, z, z],
            [z, z, o, z],
            [z, z, z, o],
        ] };
        assert(r@ =~~= identity(4));
        r
    }

    /// The entry-wise sum.
    pub fn add(self, other: Self) -> (r: Self)
        requires
            grid_fits::<T>(self@, other@, sum_op()),
        ensures
            r@ == zip_grid(self@, other@, sum_op()),
    {
        proof {
            assert forall|i: int, j: int| 0 <= i < 4 && 0 <= j < 4 implies T::in_range(
                sum_op()(self.values[i][j].val(), other.values[i][j].val()),
            ) by {
                assert(sum_op()(self@[i][j], other@[i][j]) == sum_op()(self.values[i][j].val(), other.values[i][j].val()));
            }
        }
        let (a, b) = (&self.values, &other.values);
        let r = Matrix4 { values: [
            [a[0][0].plus(b[0][0]), a[0][1].plus(b[0][1]), a[0][2].plus(b[0][2]), a[0][3].plus(b[0][3])],
            [a[1][0].plus(b[1][0]), a[1][1].plus(b[1][1]), a[1][2].plus(b[1][2]), a[1][3].plus(b[1][3])],
            [a[2][0].plus(b[2][0]), a[2][1].plus(b[2][1]), a[2][2].plus(b[2][2]), a[2][3].plus(b[2][3])],
            [a[3][0].plus(b[3][0]), a[3][1].plus(b[3][1]), a[3][2].plus(b[3][2]), a[3][3].plus(b[3][3])],
        ] };
        assert(r@ =~~= zip_grid(self@, other@, sum_op()));
        r
    }

    /// The entry-wise difference.
    pub fn sub(self, other: Self) -> (r: Self)
        requires
            grid_fits::<T>(self@, other@, diff_op()),
        ensures
            r@ == zip_grid(self@, other@, diff_op()),
    {
        proof {
            assert forall|i: int, j: int| 0 <= i < 4 && 0 <= j < 4 implies T::in_range(
                diff_op()(self.values[i][j].val(), other.values[i][j].val()),
            ) by {
                assert(diff_op()(self@[i][j], other@[i][j]) == diff_op()(self.values[i][j].val(), other.values[i][j].val()));
            }
        }
        let (a, b) = (&self.values, &other.values);
        let r = Matrix4 { values: [
            [a[0][0].minus(b[0][0]), a[0][1].minus(b[0][1]), a[0][2].minus(b[0][2]), a[0][3].minus(b[0][3])],
            [a[1][0].minus(b[1][0]), a[1][1].minus(b[1][1]), a[1][2].minus(b[1][2]), a[1][3].minus(b[1][3])],
            [a[2][0].minus(b[2][0]), a[2][1].minus(b[2][1]), a[2][2].minus(b[2][2]), a[2][3].minus(b[2][3])],
            [a[3][0].minus(b[3][0]), a[3][1].minus(b[3][1]), a[3][2].minus(b[3][2]), a[3][3].minus(b[3][3])],
        ] };
        assert(r@ =~~= zip_grid(self@, other@, diff_op()));
        r
    }

    /// One entry of a product: the component-wise product of `row` and `col`,
    /// summed.
    fn contract(row: Vector4<T>, col: Vector4<T>) -> (r: T)
        requires
            dot4_fits::<T>(vals(row.comps()), vals(col.comps())),
        ensures
            r.val() == dot4(vals(row.comps()), vals(col.comps())),
    {
        let p = row.mul(col);
        assert(vals(p.comps()) == zip_prefix(vals(row.comps()), vals(col.comps()), prod_op()));
        proof {
            assert forall|k: int| 0 <= k < 4 implies (#[trigger] p.comps()[k]).val() == row.comps()[k].val() * col.comps()[k].val() by {
                assert(vals(p.comps())[k] == prod_op()(vals(row.comps())[k], vals(col.comps())[k]));
            }
        }
        p.sum()
    }

    /// The matrix product `self * other`.
    pub fn mul(self, other: Self) -> (r: Self)
        requires
            mat_mul4_fits::<T>(self@, other@),
        ensures
            r@ == mat_mul4(self@, other@),
    {
        let rows = self.as_vectors_rows();
        let cols = other.as_vectors_collumns();
        proof {
            assert forall|i: int| 0 <= i < 4 implies vals(#[trigger] rows[i].comps()) == self@[i] by {
                assert(vals(rows[i].comps()) =~= self@[i]);
            }
            assert forall|j: int| 0 <= j < 4 implies vals(#[trigger] cols[j].comps()) == column(other@, j) by {
                assert(vals(cols[j].comps()) =~= column(other@, j));
            }
        }
        let r = Matrix4 { values: [
            [Self::contract(rows[0], cols[0]), Self::contract(rows[0], cols[1]), Self::contract(rows[0], cols[2]), Self::contract(rows[0], cols[3])],
            [Self::contract(rows[1], cols[0]), Self::contract(rows[1], cols[1]), Self::contract(rows[1], cols[2]), Self::contract(rows[1], cols[3])],
            [Self::contract(rows[2], cols[0]), Self::contract(rows[2], cols[1]), Self::contract(rows[2], cols[2]), Self::contract(rows[2], cols[3])],
            [Self::contract(rows[3], cols[0]), Self::contract(rows[3], cols[1]), Self::contract(rows[3], cols[2]), Self::contract(rows[3], cols[3])],
        ] };
        assert(r@ =~~= mat_mul4(self@, other@));
        r
    }

    /// The matrix-vector product `self * v`.
    pub fn mul_vector(self, v: Vector4<T>) -> (r: Vector4<T>)
        requires
            mat_vec4_fits::<T>(self@, vals(v.comps())),
        ensures
            vals(r.comps()) == mat_vec4(self@, vals(v.comps())),
    {
        let rows = self.as_vectors_rows();
        proof {
            assert forall|i: int| 0 <= i < 4 implies vals(#[trigger] rows[i].comps()) == self@[i] by {
                assert(vals(rows[i].comps()) =~= self@[i]);
            }
        }
        let r = Vector4::new(
            Self::contract(rows[0], v), Self::contract(rows[1], v), Self::contract(rows[2], v), Self::contract(rows[3], v),
        );
        assert(vals(r.comps()) =~= mat_vec4(self@, vals(v.comps())));
        r
    }


    /// One entry of a product, or `None` when a product or a partial sum met
    /// on the way is not representable.
    fn checked_contract(row: Vector4<T>, col: Vector4<T>) -> (r: Option<T>)
        ensures
            match r {
                Some(v) => dot4_fits::<T>(vals(row.comps()), vals(col.comps()))
                    && v.val() == dot4(vals(row.comps()), vals(col.comps())),
                None => !dot4_fits::<T>(vals(row.comps()), vals(col.comps())),
            },
    {
        proof {
            assert(vals(row.comps())[0] == row.x.val() && vals(col.comps())[0] == col.x.val());
            assert(vals(row.comps())[1] == row.y.val() && vals(col.comps())[1] == col.y.val());
            assert(vals(row.comps())[2] == row.z.val() && vals(col.comps())[2] == col.z.val());
            assert(vals(row.comps())[3] == row.w.val() && vals(col.comps())[3] == col.w.val());
        }
        let p0 = match row.x.checked_times(col.x) {
            Some(v) => v,
            None => return None,
        };
        let p1 = match row.y.checked_times(col.y) {
            Some(v) => v,
            None => return None,
        };
        let p2 = match row.z.checked_times(col.z) {
            Some(v) => v,
            None => return None,
        };
        let p3 = match row.w.checked_times(col.w) {
            Some(v) => v,
            None => return None,
        };
        let s1 = match p0.checked_plus(p1) {
            Some(v) => v,
            None => return None,
        };
        let s2 = match s1.checked_plus(p2) {
            Some(v) => v,
            None => return None,
        };
        let s3 = match s2.checked_plus(p3) {
            Some(v) => v,
            None => return None,
        };
        proof {
            T::lemma_val_in_range(p0);
            T::lemma_val_in_range(p1);
            T::lemma_val_in_range(p2);
            T::lemma_val_in_range(p3);
            T::lemma_val_in_range(s1);
            T::lemma_val_in_range(s2);
            T::lemma_val_in_range(s3);
        }
        Some(s3)
    }

    /// The matrix product `self * other`, or `None` when it is not
    /// representable in `T`.
    pub fn checked_mul(self, other: Self) -> (r: Option<Self>)
        ensures
            r is Some <==> mat_mul4_fits::<T>(self@, other@),
            r is Some ==> r.unwrap()@ == mat_mul4(self@, other@),
    {
        let rows = self.as_vectors_rows();
        let cols = other.as_vectors_collumns();
        proof {
            assert forall|i: int| 0 <= i < 4 implies vals(#[trigger] rows[i].comps()) == self@[i] by {
                assert(vals(rows[i].comps()) =~= self@[i]);
            }
            assert forall|j: int| 0 <= j < 4 implies vals(#[trigger] cols[j].comps()) == column(other@, j) by {
                assert(vals(cols[j].comps()) =~= column(other@, j));
            }
        }
        let e00 = match Self::checked_contract(rows[0], cols[0]) {
            Some(v) => v,
            None => {
                assert(!dot4_fits::<T>(self@[0], column(other@, 0)));
                return None;
            },
        };
        let e01 = match Self::checked_contract(rows[0], cols[1]) {
            Some(v) => v,
            None => {
                assert(!dot4_fits::<T>(self@[0], column(other@, 1)));
                return None;
            },
        };
        let e02 = match Self::checked_contract(rows[0], cols[2]) {
            Some(v) => v,
            None => {
                assert(!dot4_fits::<T>(self@[0], column(other@, 2)));
                return None;
            },
        };
        let e03 = match Self::checked_contract(rows[0], cols[3]) {
            Some(v) => v,
            None => {
                assert(!dot4_fits::<T>(self@[0], column(other@, 3)));
                return None;
            },
        };
        let e10 = match Self::checked_contract(rows[1], cols[0]) {
            Some(v) => v,
            None => {
                assert(!dot4_fits::<T>(self@[1], column(other@, 0)));
                return None;
            },
        };
        let e11 = match Self::checked_contract(rows[1], cols[1]) {
            Some(v) => v,
            None => {
                assert(!dot4_fits::<T>(self@[1], column(other@, 1)));
                return None;
            },
        };
        let e12 = match Self::checked_contract(rows[1], cols[2]) {
            Some(v) => v,
            None => {
                assert(!dot4_fits::<T>(self@[1], column(other@, 2)));
                return None;
            },
        };
        let e13 = match Self::checked_contract(rows[1], cols[3]) {
            Some(v) => v,
            None => {
                assert(!dot4_fits::<T>(self@[1], column(other@, 3)));
                return None;
            },
        };
        let e20 = match Self::checked_contract(rows[2], cols[0]) {
            Some(v) => v,
            None => {
                assert(!dot4_fits::<T>(self@[2], column(other@, 0)));
                return None;
            },
        };
        let e21 = match Self::checked_contract(rows[2], cols[1]) {
            Some(v) => v,
            None => {
                assert(!dot4_fits::<T>(self@[2], column(other@, 1)));
                return None;
            },
        };
        let e22 = match Self::checked_contract(rows[2], cols[2]) {
            Some(v) => v,
            None => {
                assert(!dot4_fits::<T>(self@[2], column(other@, 2)));
                return None;
            },
        };
        let e23 = match Self::checked_contract(rows[2], cols[3]) {
            Some(v) => v,
            None => {
                assert(!dot4_fits::<T>(self@[2], column(other@, 3)));
                return None;
            },
        };
        let e30 = match Self::checked_contract(rows[3], cols[0]) {
            Some(v) => v,
            None => {
                assert(!dot4_fits::<T>(self@[3], column(other@, 0)));
                return None;
            },
        };
        let e31 = match Self::checked_contract(rows[3], cols[1]) {
            Some(v) => v,
            None => {
                assert(!dot4_fits::<T>(self@[3], column(other@, 1)));
                return None;
            },
        };
        let e32 = match Self::checked_contract(rows[3], cols[2]) {
            Some(v) => v,
            None => {
                assert(!dot4_fits::<T>(self@[3], column(other@, 2)));
                return None;
            },
        };
        let e33 = match Self::checked_contract(rows[3], cols[3]) {
            Some(v) => v,
            None => {
                assert(!dot4_fits::<T>(self@[3], column(other@, 3)));
                return None;
            },
        };
        let r = Matrix4 { values: [
            [e00, e01, e02, e03],
            [e10, e11, e12, e13],
            [e20, e21, e22, e23],
            [e30, e31, e32, e33],
        ] };
        assert(r@ =~~= mat_mul4(self@, other@));
        Some(r)
    }

    /// The matrix-vector product `self * v`, or `None` when it is not
    /// representable in `T`.
    pub fn checked_mul_vector(self, v: Vector4<T>) -> (r: Option<Vector4<T>>)
        ensures
            r is Some <==> mat_vec4_fits::<T>(self@, vals(v.comps())),
            r is Some ==> vals(r.unwrap().comps()) == mat_vec4(self@, vals(v.comps())),
    {
        let rows = self.as_vectors_rows();
        proof {
            assert forall|i: int| 0 <= i < 4 implies vals(#[trigger] rows[i].comps()) == self@[i] by {
                assert(vals(rows[i].comps()) =~= self@[i]);
            }
        }
        let e0 = match Self::checked_contract(rows[0], v) {
            Some(x) => x,
            None => {
                assert(!dot4_fits::<T>(self@[0], vals(v.comps())));
                return None;
            },
        };
        let e1 = match Self::checked_contract(rows[1], v) {
            Some(x) => x,
            None => {
                assert(!dot4_fits::<T>(self@[1], vals(v.comps())));
                return None;
            },
        };
        let e2 = match Self::checked_contract(rows[2], v) {
            Some(x) => x,
            None => {
                assert(!dot4_fits::<T>(self@[2], vals(v.comps())));
                return None;
            },
        };
        let e3 = match Self::checked_contract(rows[3], v) {
            Some(x) => x,
            None => {
                assert(!dot4_fits::<T>(self@[3], vals(v.comps())));
                return None;
            },
        };
        let r = Vector4::new(e0, e1, e2, e3);
        assert(vals(r.comps()) =~= mat_vec4(self@, vals(v.comps())));
        Some(r)
    }

    /// The translation by the first three components of `vector` (a missing one
    /// counts as zero): the identity with them down the last column.
    pub fn translation_matrix<V: ToVector3<T>>(vector: V) -> (r: Self)
        ensures
            r@ == translation4(resized(vals(vector.comps()), 3)),
    {
        let v = vector.to_vec_3();
        let (o, z) = (T::one(), T::zero());
        let r = Matrix4 { values: [
            [o, z, z, v.x],
            [z, o, z, v.y],
            [z, z, o, v.z],
            [z, z, z, o],
        ] };
        assert(vals(v.comps()) =~= resized(vals(vector.comps()), 3));
        assert(r@ =~~= translation4(resized(vals(vector.comps()), 3)));
        r
    }

    /// `self` followed by `translation_matrix(vector)`, multiplied on the right.
    pub fn translate<V: ToVector3<T>>(self, vector: V) -> (r: Self)
        requires
            mat_mul4_fits::<T>(self@, translation4(resized(vals(vector.comps()), 3))),
        ensures
            r@ == mat_mul4(self@, translation4(resized(vals(vector.comps()), 3))),
    {
        self.mul(Self::translation_matrix(vector))
    }

    /// The scaling by the first three components of `vector` (a missing one
    /// counts as zero): the identity with them on the first three diagonal entries.
    pub fn scaling_matrix<V: ToVector3<T>>(vector: V) -> (r: Self)
        ensures
            r@ == scaling4(resized(vals(vector.comps()), 3)),
    {
        let v = vector.to_vec_3();
        let (o, z) = (T::one(), T::zero());
        let r = Matrix4 { values: [
            [v.x, z, z, z],
            [z, v.y, z, z],
            [z, z, v.z, z],
            [z, z, z, o],
        ] };
        assert(vals(v.comps()) =~= resized(vals(vector.comps()), 3));
        assert(r@ =~~= scaling4(resized(vals(vector.comps()), 3)));
        r
    }

    /// `self` followed by `scaling_matrix(vector)`, multiplied on the right.
    pub fn scale<V: ToVector3<T>>(self, vector: V) -> (r: Self)
        requires
            mat_mul4_fits::<T>(self@, scaling4(resized(vals(vector.comps()), 3))),
        ensures
            r@ == mat_mul4(self@, scaling4(resized(vals(vector.comps()), 3))),
    {
        self.mul(Self::scaling_matrix(vector))
    }
}

} // verus!
