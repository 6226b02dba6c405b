use vstd::prelude::*;

use crate::scalar::Scalar;
use crate::OutOfRange;
use crate::vector::{
    Vector, Vector1, Vector2, Vector3, Vector4, resize, vals, zip_prefix, prefix_fits, sum_op,
    diff_op, prod_op, four_comps, FromVector1, FromVector2, FromVector3, FromVector4, ToVector1,
    ToVector2, ToVector3, ToVector4,
};
use crate::vector_iterator::Vector4Iterator;

verus! {

impl<T: Scalar> Vector<T> for Vector4<T> {
    open spec fn comps(&self) -> Seq<T> {
        four_comps(*self)
    }

    open spec fn total(&self) -> int {
        self.x.val() + self.y.val() + self.z.val() + self.w.val()
    }

    open spec fn sum_fits(&self) -> bool {
        &&& T::in_range(self.x.val() + self.y.val())
        &&& T::in_range(self.x.val() + self.y.val() + self.z.val())
        &&& T::in_range(self.x.val() + self.y.val() + self.z.val() + self.w.val())
    }

    fn len(&self) -> (r: usize) {
        4
    }

    fn sum(&self) -> (r: T) {
        self.x.plus(self.y).plus(self.z).plus(self.w)
    }

    fn get(&self, i: usize) -> (r: Option<T>) {
        if i == 0 {
            Some(self.x)
        } else if i == 1 {
            Some(self.y)
        } else if i == 2 {
            Some(self.z)
        } else if i == 3 {
            Some(self.w)
        } else {
            None
        }
    }

    open spec fn dim() -> nat {
        4
    }

    proof fn lemma_dim(&self) {
    }

    proof fn lemma_comps_injective(a: &Self, b: &Self) {
        if a.comps() == b.comps() {
            assert(a.comps()[0] == b.comps()[0]);
            assert(a.comps()[1] == b.comps()[1]);
            assert(a.comps()[2] == b.comps()[2]);
            assert(a.comps()[3] == b.comps()[3]);
        }
    }

    fn widened(&self) -> (r: Vector4<T>) {
        Vector4 { x: self.x, y: self.y, z: self.z, w: self.w }
    }

    fn narrowed(v: Vector4<T>) -> (r: Self) {
        Vector4 { x: v.x, y: v.y, z: v.z, w: v.w }
    }
}

impl<T: Scalar> FromVector1<T> for Vector4<T> {
    fn from_vec_1(vec: Vector1<T>) -> (r: Self) {
        resize(&vec)
    }
}

impl<T: Scalar> FromVector2<T> for Vector4<T> {
    fn from_vec_2(vec: Vector2<T>) -> (r: Self) {
        resize(&vec)
    }
}

impl<T: Scalar> FromVector3<T> for Vector4<T> {
    fn from_vec_3(vec: Vector3<T>) -> (r: Self) {
        resize(&vec)
    }
}

impl<T: Scalar> FromVector4<T> for Vector4<T> {
    fn from_vec_4(vec: Vector4<T>) -> (r: Self) {
        resize(&vec)
    }
}

impl<T: Scalar> ToVector1<T> for Vector4<T> {
    fn to_vec_1(self) -> (r: Vector1<T>) {
        resize(&self)
    }
}

impl<T: Scalar> ToVector2<T> for Vector4<T> {
    fn to_vec_2(self) -> (r: Vector2<T>) {
        resize(&self)
    }
}

impl<T: Scalar> ToVector3<T> for Vector4<T> {
    fn to_vec_3(self) -> (r: Vector3<T>) {
        resize(&self)
    }
}

impl<T: Scalar> ToVector4<T> for Vector4<T> {
    fn to_vec_4(self) -> (r: Vector4<T>) {
        resize(&self)
    }
}

impl<T: Scalar> Vector4<T> {
    pub fn new(x: T, y: T, z: T, w: T) -> (r: Self)
        ensures
            r.comps() == seq![x, y, z, w],
    {
        Vector4 { x, y, z, w }
    }

    /// Replaces the component at index `i`; fails, changing nothing, when
    /// `i` is not below 4.
    pub fn set(&mut self, i: usize, v: T) -> (r: Result<(), OutOfRange>)
        ensures
            i < 4 ==> r is Ok && final(self).comps() == old(self).comps().update(i as int, v),
            i >= 4 ==> r is Err && *final(self) == *old(self),
    {
        if i == 0 {
            self.x = v;
        } else if i == 1 {
            self.y = v;
        } else if i == 2 {
            self.z = v;
        } else if i == 3 {
            self.w = v;
        } else {
            return Err(OutOfRange);
        }
        proof {
            assert(final(self).comps() =~= old(self).comps().update(i as int, v));
        }
        Ok(())
    }

    /// An iterator over the components, in order.
    pub fn iter(&self) -> (r: Vector4Iterator<T>)
        ensures
            r.vector == *self,
            r.index == 0,
    {
        Vector4Iterator::new(*self)
    }

    /// Component-wise sum over the prefix that both vectors have; each
    /// component of `self` past the end of `other` passes through unchanged.
    pub fn add<V: Vector<T>>(self, other: V) -> (r: Self)
        requires
            prefix_fits::<T>(vals(self.comps()), vals(other.comps()), sum_op()),
        ensures
            vals(r.comps()) == zip_prefix(vals(self.comps()), vals(other.comps()), sum_op()),
    {
        let x = match other.get(0) {
            Some(c) => {
                assert(sum_op()(vals(self.comps())[0], vals(other.comps())[0]) == sum_op()(self.x.val(), c.val()));
                self.x.plus(c)
            },
            None => self.x,
        };
        let y = match other.get(1) {
            Some(c) => {
                assert(sum_op()(vals(self.comps())[1], vals(other.comps())[1]) == sum_op()(self.y.val(), c.val()));
                self.y.plus(c)
            },
            None => self.y,
        };
        let z = match other.get(2) {
            Some(c) => {
                assert(sum_op()(vals(self.comps())[2], vals(other.comps())[2]) == sum_op()(self.z.val(), c.val()));
                self.z.plus(c)
            },
            None => self.z,
        };
        let w = match other.get(3) {
            Some(c) => {
                assert(sum_op()(vals(self.comps())[3], vals(other.comps())[3]) == sum_op()(self.w.val(), c.val()));
                self.w.plus(c)
            },
            None => self.w,
        };
        let r = Vector4 { x, y, z, w };
        assert(vals(r.comps()) =~= zip_prefix(vals(self.comps()), vals(other.comps()), sum_op()));
        r
    }

    /// Component-wise difference over the prefix that both vectors have; each
    /// component of `self` past the end of `other` passes through unchanged.
    pub fn sub<V: Vector<T>>(self, other: V) -> (r: Self)
        requires
            prefix_fits::<T>(vals(self.comps()), vals(other.comps()), diff_op()),
        ensures
            vals(r.comps()) == zip_prefix(vals(self.comps()), vals(other.comps()), diff_op()),
    {
        let x = match other.get(0) {
            Some(c) => {
                assert(diff_op()(vals(self.comps())[0], vals(other.comps())[0]) == diff_op()(self.x.val(), c.val()));
                self.x.minus(c)
            },
            None => self.x,
        };
        let y = match other.get(1) {
            Some(c) => {
                assert(diff_op()(vals(self.comps())[1], vals(other.comps())[1]) == diff_op()(self.y.val(), c.val()));
                self.y.minus(c)
            },
            None => self.y,
        };
        let z = match other.get(2) {
            Some(c) => {
                assert(diff_op()(vals(self.comps())[2], vals(other.comps())[2]) == diff_op()(self.z.val(), c.val()));
                self.z.minus(c)
            },
            None => self.z,
        };
        let w = match other.get(3) {
            Some(c) => {
                assert(diff_op()(vals(self.comps())[3], vals(other.comps())[3]) == diff_op()(self.w.val(), c.val()));
                self.w.minus(c)
            },
            None => self.w,
        };
        let r = Vector4 { x, y, z, w };
        assert(vals(r.comps()) =~= zip_prefix(vals(self.comps()), vals(other.comps()), diff_op()));
        r
    }

    /// Component-wise product over the prefix that both vectors have; each
    /// component of `self` past the end of `other` passes through unchanged.
    pub fn mul<V: Vector<T>>(self, other: V) -> (r: Self)
        requires
            prefix_fits::<T>(vals(self.comps()), vals(other.comps()), prod_op()),
        ensures
            vals(r.comps()) == zip_prefix(vals(self.comps()), vals(other.comps()), prod_op()),
    {
        let x = match other.get(0) {
            Some(c) => {
                assert(prod_op()(vals(self.comps())[0], vals(other.comps())[0]) == prod_op()(self.x.val(), c.val()));
                self.x.times(c)
            },
            None => self.x,
        };
        let y = match other.get(1) {
            Some(c) => {
                assert(prod_op()(vals(self.comps())[1], vals(other.comps())[1]) == prod_op()(self.y.val(), c.val()));
                self.y.times(c)
            },
            None => self.y,
        };
        let z = match other.get(2) {
            Some(c) => {
                assert(prod_op()(vals(self.comps())[2], vals(other.comps())[2]) == prod_op()(self.z.val(), c.val()));
                self.z.times(c)
            },
            None => self.z,
        };
        let w = match other.get(3) {
            Some(c) => {
                assert(prod_op()(vals(self.comps())[3], vals(other.comps())[3]) == prod_op()(self.w.val(), c.val()));
                self.w.times(c)
            },
            None => self.w,
        };
        let r = Vector4 { x, y, z, w };
        assert(vals(r.comps()) =~= zip_prefix(vals(self.comps()), vals(other.comps()), prod_op()));
        r
    }
}

} // verus!
