use vstd::prelude::*;

use crate::scalar::Scalar;
use crate::OutOfRange;
use crate::vector::{
    Vector, Vector1, Vector2, Vector3, Vector4, resize, vals, zip_prefix, prefix_fits, sum_op,
    diff_op, prod_op, FromVector1, FromVector2, FromVector3, FromVector4, ToVector1, ToVector2,
    ToVector3, ToVector4,
};
use crate::vector_iterator::Vector1Iterator;

verus! {

impl<T: Scalar> Vector<T> for Vector1<T> {
    open spec fn comps(&self) -> Seq<T> {
        seq![self.x]
    }

    open spec fn total(&self) -> int {
        self.x.val()
    }

    open spec fn sum_fits(&self) -> bool {
        true
    }

    fn len(&self) -> (r: usize) {
        1
    }

    fn sum(&self) -> (r: T) {
        self.x
    }

    fn get(&self, i: usize) -> (r: Option<T>) {
        if i == 0 {
            Some(self.x)
        } else {
            None
        }
    }

    open spec fn dim() -> nat {
        1
    }

    proof fn lemma_dim(&self) {
    }

    proof fn lemma_comps_injective(a: &Self, b: &Self) {
        if a.comps() == b.comps() {
            assert(a.comps()[0] == b.comps()[0]);
        }
    }

    fn widened(&self) -> (r: Vector4<T>) {
        proof {
            T::lemma_identities_in_range();
        }
        let zero = self.x.minus(self.x);
        Vector4 { x: self.x, y: zero, z: zero, w: zero }
    }

    fn narrowed(v: Vector4<T>) -> (r: Self) {
        Vector1 { x: v.x }
    }
}

impl<T: Scalar> FromVector1<T> for Vector1<T> {
    fn from_vec_1(vec: Vector1<T>) -> (r: Self) {
        resize(&vec)
    }
}

impl<T: Scalar> FromVector2<T> for Vector1<T> {
    fn from_vec_2(vec: Vector2<T>) -> (r: Self) {
        resize(&vec)
    }
}

impl<T: Scalar> FromVector3<T> for Vector1<T> {
    fn from_vec_3(vec: Vector3<T>) -> (r: Self) {
        resize(&vec)
    }
}

impl<T: Scalar> FromVector4<T> for Vector1<T> {
    fn from_vec_4(vec: Vector4<T>) -> (r: Self) {
        resize(&vec)
    }
}

impl<T: Scalar> ToVector1<T> for Vector1<T> {
    fn to_vec_1(self) -> (r: Vector1<T>) {
        resize(&self)
    }
}

impl<T: Scalar> ToVector2<T> for Vector1<T> {
    fn to_vec_2(self) -> (r: Vector2<T>) {
        resize(&self)
    }
}

impl<T: Scalar> ToVector3<T> for Vector1<T> {
    fn to_vec_3(self) -> (r: Vector3<T>) {
        resize(&self)
    }
}

impl<T: Scalar> ToVector4<T> for Vector1<T> {
    fn to_vec_4(self) -> (r: Vector4<T>) {
        resize(&self)
    }
}

impl<T: Scalar> Vector1<T> {
    pub fn new(x: T) -> (r: Self)
        ensures
            r.comps() == seq![x],
    {
        Vector1 { x }
    }

    /// Replaces the component at index `i`; fails, changing nothing, when
    /// `i` is not below 1.
    pub fn set(&mut self, i: usize, v: T) -> (r: Result<(), OutOfRange>)
        ensures
            i < 1 ==> r is Ok && final(self).comps() == old(self).comps().update(i as int, v),
            i >= 1 ==> r is Err && *final(self) == *old(self),
    {
        if i == 0 {
            self.x = v;
        } else {
            return Err(OutOfRange);
        }
        proof {
            assert(final(self).comps() =~= old(self).comps().update(i as int, v));
        }
        Ok(())
    }

    /// An iterator over the components, in order.
    pub fn iter(&self) -> (r: Vector1Iterator<T>)
        ensures
            r.vector == *self,
            r.index == 0,
    {
        Vector1Iterator::new(*self)
    }

    /// Component-wise sum over the prefix that both vectors have; each
    /// component of `self` past the end of `other` passes through unchanged.
    pub fn add<V: Vector<T>>(self, other: V) -> (r: Self)
        requires
            prefix_fits::<T>(vals(self.comps()), vals(other.comps()), sum_op()),
        ensures
            vals(r.comps()) == zip_prefix(vals(self.comps()), vals(other.comps()), sum_op()),
    {
        let x = match other.get(0) {
            Some(c) => {
                assert(sum_op()(vals(self.comps())[0], vals(other.comps())[0]) == sum_op()(self.x.val(), c.val()));
                self.x.plus(c)
            },
            None => self.x,
        };
        let r = Vector1 { x };
        assert(vals(r.comps()) =~= zip_prefix(vals(self.comps()), vals(other.comps()), sum_op()));
        r
    }

    /// Component-wise difference over the prefix that both vectors have; each
    /// component of `self` past the end of `other` passes through unchanged.
    pub fn sub<V: Vector<T>>(self, other: V) -> (r: Self)
        requires
            prefix_fits::<T>(vals(self.comps()), vals(other.comps()), diff_op()),
        ensures
            vals(r.comps()) == zip_prefix(vals(self.comps()), vals(other.comps()), diff_op()),
    {
        let x = match other.get(0) {
            Some(c) => {
                assert(diff_op()(vals(self.comps())[0], vals(other.comps())[0]) == diff_op()(self.x.val(), c.val()));
                self.x.minus(c)
            },
            None => self.x,
        };
        let r = Vector1 { x };
        assert(vals(r.comps()) =~= zip_prefix(vals(self.comps()), vals(other.comps()), diff_op()));
        r
    }

    /// Component-wise product over the prefix that both vectors have; each
    /// component of `self` past the end of `other` passes through unchanged.
    pub fn mul<V: Vector<T>>(self, other: V) -> (r: Self)
        requires
            prefix_fits::<T>(vals(self.comps()), vals(other.comps()), prod_op()),
        ensures
            vals(r.comps()) == zip_prefix(vals(self.comps()), vals(other.comps()), prod_op()),
    {
        let x = match other.get(0) {
            Some(c) => {
                assert(prod_op()(vals(self.comps())[0], vals(other.comps())[0]) == prod_op()(self.x.val(), c.val()));
                self.x.times(c)
            },
            None => self.x,
        };
        let r = Vector1 { x };
        assert(vals(r.comps()) =~= zip_prefix(vals(self.comps()), vals(other.comps()), prod_op()));
        r
    }
}

} // verus!
