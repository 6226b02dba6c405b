use vstd::prelude::*;

use crate::scalar::Scalar;

verus! {

/// The integers that a sequence of scalars stands for.
pub open spec fn vals<T: Scalar>(s: Seq<T>) -> Seq<int> {
    s.map_values(|t: T| t.val())
}

/// Combines the overlapping prefix of `a` and `b` with `f`; the components of
/// `a` past the end of `b` pass through unchanged. The result has `a`'s length.
pub open spec fn zip_prefix(a: Seq<int>, b: Seq<int>, f: spec_fn(int, int) -> int) -> Seq<int> {
    Seq::new(a.len(), |i: int| if i < b.len() { f(a[i], b[i]) } else { a[i] })
}

/// Every combined component of `zip_prefix(a, b, f)` is representable in `T`.
pub open spec fn prefix_fits<T: Scalar>(a: Seq<int>, b: Seq<int>, f: spec_fn(int, int) -> int) -> bool {
    forall|i: int| 0 <= i < a.len() && i < b.len() ==> T::in_range(#[trigger] f(a[i], b[i]))
}

/// Addition, as a function.
pub open spec fn sum_op() -> spec_fn(int, int) -> int {
    |a: int, b: int| a + b
}

/// Subtraction, as a function.
pub open spec fn diff_op() -> spec_fn(int, int) -> int {
    |a: int, b: int| a - b
}

/// Multiplication, as a function.
pub open spec fn prod_op() -> spec_fn(int, int) -> int {
    |a: int, b: int| a * b
}

/// `r` is `v` resized: the shared prefix is copied, and each component of `r`
/// past the end of `v` is the additive identity. Components of `v` past the
/// end of `r` are dropped.
pub open spec fn is_resize_of<T: Scalar>(r: Seq<T>, v: Seq<T>) -> bool {
    forall|i: int| 0 <= i < r.len() ==> if i < v.len() { r[i] == v[i] } else { (#[trigger] r[i]).val() == 0 }
}

/// What `get` returns at index `i` of the components `s`.
pub open spec fn get_result<T>(s: Seq<T>, i: int) -> Option<T> {
    if 0 <= i < s.len() { Some(s[i]) } else { None }
}

/// The components of a four-component vector, in order.
pub open spec fn four_comps<T>(v: Vector4<T>) -> Seq<T> {
    seq![v.x, v.y, v.z, v.w]
}

/// A fixed-size vector of scalars.
pub trait Vector<T: Scalar>: Sized {
    /// The components, in order.
    spec fn comps(&self) -> Seq<T>;

    /// The sum of the components.
    spec fn total(&self) -> int;

    /// Every partial sum met while adding the components left to right is
    /// representable in `T`.
    spec fn sum_fits(&self) -> bool;

    /// The number of components.
    fn len(&self) -> (r: usize)
        ensures
            r == self.comps().len(),
            1 <= r <= 4,
    ;

    /// Adds the components from first to last.
    fn sum(&self) -> (r: T)
        requires
            self.sum_fits(),
        ensures
            r.val() == self.total(),
    ;

    /// The component at index `i`, or `None` when `i` is not below `len()`.
    fn get(&self, i: usize) -> (r: Option<T>)
        ensures
            r == get_result(self.comps(), i as int),
    ;

    /// The number of components of every value of the type.
    spec fn dim() -> nat;

    /// The dimension lies between one and four.
    proof fn lemma_dim(&self)
        ensures
            self.comps().len() == Self::dim(),
            1 <= Self::dim() <= 4,
    ;

    /// A vector is determined by its components.
    proof fn lemma_comps_injective(a: &Self, b: &Self)
        ensures
            a.comps() == b.comps() ==> a == b,
    ;

    /// This vector widened to four components; the new trailing components
    /// are `x - x` for the first component `x`.
    fn widened(&self) -> (r: Vector4<T>)
        ensures
            is_resize_of(four_comps(r), self.comps()),
    ;

    /// The leading components of `v`, as many as this type holds.
    fn narrowed(v: Vector4<T>) -> (r: Self)
        ensures
            is_resize_of(r.comps(), four_comps(v)),
    ;
}

/// Resizes `v` to the dimension of `R`: trailing components are dropped,
/// and missing ones are filled with the additive identity `x - x`.
pub fn resize<T: Scalar, F: Vector<T>, R: Vector<T>>(v: &F) -> (r: R)
    ensures
        is_resize_of(r.comps(), v.comps()),
{
    let r = R::narrowed(v.widened());
    proof {
        r.lemma_dim();
    }
    r
}

/// A vector of one component.
#[derive(Debug, Clone, Copy, PartialEq, Eq)]
pub struct Vector1<T> {
    pub x: T,
}

/// A vector of two components.
#[derive(Debug, Clone, Copy, PartialEq, Eq)]
pub struct Vector2<T> {
    pub x: T,
    pub y: T,
}

/// A vector of three components.
#[derive(Debug, Clone, Copy, PartialEq, Eq)]
pub struct Vector3<T> {
    pub x: T,
    pub y: T,
    pub z: T,
}

/// A vector of four components.
#[derive(Debug, Clone, Copy, PartialEq, Eq)]
pub struct Vector4<T> {
    pub x: T,
    pub y: T,
    pub z: T,
    pub w: T,
}

/// Conversion from a vector of 1 component, by `resize`.
pub trait FromVector1<T: Scalar>: Vector<T> {
    fn from_vec_1(vec: Vector1<T>) -> (r: Self)
        ensures
            is_resize_of(r.comps(), vec.comps()),
    ;
}

/// Conversion from a vector of 2 components, by `resize`.
pub trait FromVector2<T: Scalar>: Vector<T> {
    fn from_vec_2(vec: Vector2<T>) -> (r: Self)
        ensures
            is_resize_of(r.comps(), vec.comps()),
    ;
}

/// Conversion from a vector of 3 components, by `resize`.
pub trait FromVector3<T: Scalar>: Vector<T> {
    fn from_vec_3(vec: Vector3<T>) -> (r: Self)
        ensures
            is_resize_of(r.comps(), vec.comps()),
    ;
}

/// Conversion from a vector of 4 components, by `resize`.
pub trait FromVector4<T: Scalar>: Vector<T> {
    fn from_vec_4(vec: Vector4<T>) -> (r: Self)
        ensures
            is_resize_of(r.comps(), vec.comps()),
    ;
}

/// Conversion to a vector of 1 component, by `resize`.
pub trait ToVector1<T: Scalar>: Vector<T> {
    fn to_vec_1(self) -> (r: Vector1<T>)
        ensures
            is_resize_of(r.comps(), self.comps()),
    ;
}

/// Conversion to a vector of 2 components, by `resize`.
pub trait ToVector2<T: Scalar>: Vector<T> {
    fn to_vec_2(self) -> (r: Vector2<T>)
        ensures
            is_resize_of(r.comps(), self.comps()),
    ;
}

/// Conversion to a vector of 3 components, by `resize`.
pub trait ToVector3<T: Scalar>: Vector<T> {
    fn to_vec_3(self) -> (r: Vector3<T>)
        ensures
            is_resize_of(r.comps(), self.comps()),
    ;
}

/// Conversion to a vector of 4 components, by `resize`.
pub trait ToVector4<T: Scalar>: Vector<T> {
    fn to_vec_4(self) -> (r: Vector4<T>)
        ensures
            is_resize_of(r.comps(), self.comps()),
    ;
}

/// The cross product of two three-component vectors.
pub open spec fn cross_vals(a: Seq<int>, b: Seq<int>) -> Seq<int> {
    seq![a[1] * b[2] - a[2] * b[1], a[2] * b[0] - a[0] * b[2], a[0] * b[1] - a[1] * b[0]]
}

/// Every product and difference met while computing `cross_vals(a, b)` is
/// representable in `T`.
pub open spec fn cross_fits<T: Scalar>(a: Seq<int>, b: Seq<int>) -> bool {
    &&& T::in_range(a[1] * b[2]) && T::in_range(a[2] * b[1])
    &&& T::in_range(a[2] * b[0]) && T::in_range(a[0] * b[2])
    &&& T::in_range(a[0] * b[1]) && T::in_range(a[1] * b[0])
    &&& T::in_range(a[1] * b[2] - a[2] * b[1])
    &&& T::in_range(a[2] * b[0] - a[0] * b[2])
    &&& T::in_range(a[0] * b[1] - a[1] * b[0])
}

/// The planar cross product of two two-component vectors, embedded in three
/// dimensions.
pub open spec fn planar_cross_vals(a: Seq<int>, b: Seq<int>) -> Seq<int> {
    seq![0, 0, a[0] * b[1] - a[1] * b[0]]
}

/// Every product and difference met while computing `planar_cross_vals(a, b)`
/// is representable in `T`.
pub open spec fn planar_cross_fits<T: Scalar>(a: Seq<int>, b: Seq<int>) -> bool {
    &&& T::in_range(a[0] * b[1]) && T::in_range(a[1] * b[0])
    &&& T::in_range(a[0] * b[1] - a[1] * b[0])
}

} // verus!
