use vstd::prelude::*;

use crate::scalar::Scalar;
use crate::vector::{Vector, Vector1, Vector2, Vector3, Vector4, get_result};

verus! {

/// Walks the components of a `Vector1` in order, from index `index` on.
#[derive(Debug, Clone, Copy)]
pub struct Vector1Iterator<T> {
    pub vector: Vector1<T>,
    pub index: usize,
}

impl<T: Scalar> Vector1Iterator<T> {
    pub fn new(vector: Vector1<T>) -> (r: Self)
        ensures
            r.vector == vector,
            r.index == 0,
    {
        Vector1Iterator { vector, index: 0 }
    }

    /// The next component, or `None` once all 1 have been handed out.
    pub fn next(&mut self) -> (r: Option<T>)
        ensures
            r == get_result(old(self).vector.comps(), old(self).index as int),
            final(self).vector == old(self).vector,
            final(self).index == if old(self).index < 1 { old(self).index + 1 } else { old(self).index as int },
    {
        let r = self.vector.get(self.index);
        if self.index < 1 {
            self.index = self.index + 1;
        }
        r
    }
}

/// Walks the components of a `Vector2` in order, from index `index` on.
#[derive(Debug, Clone, Copy)]
pub struct Vector2Iterator<T> {
    pub vector: Vector2<T>,
    pub index: usize,
}

impl<T: Scalar> Vector2Iterator<T> {
    pub fn new(vector: Vector2<T>) -> (r: Self)
        ensures
            r.vector == vector,
            r.index == 0,
    {
        Vector2Iterator { vector, index: 0 }
    }

    /// The next component, or `None` once all 2 have been handed out.
    pub fn next(&mut self) -> (r: Option<T>)
        ensures
            r == get_result(old(self).vector.comps(), old(self).index as int),
            final(self).vector == old(self).vector,
            final(self).index == if old(self).index < 2 { old(self).index + 1 } else { old(self).index as int },
    {
        let r = self.vector.get(self.index);
        if self.index < 2 {
            self.index = self.index + 1;
        }
        r
    }
}

/// Walks the components of a `Vector3` in order, from index `index` on.
#[derive(Debug, Clone, Copy)]
pub struct Vector3Iterator<T> {
    pub vector: Vector3<T>,
    pub index: usize,
}

impl<T: Scalar> Vector3Iterator<T> {
    pub fn new(vector: Vector3<T>) -> (r: Self)
        ensures
            r.vector == vector,
            r.index == 0,
    {
        Vector3Iterator { vector, index: 0 }
    }

    /// The next component, or `None` once all 3 have been handed out.
    pub fn next(&mut self) -> (r: Option<T>)
        ensures
            r == get_result(old(self).vector.comps(), old(self).index as int),
            final(self).vector == old(self).vector,
            final(self).index == if old(self).index < 3 { old(self).index + 1 } else { old(self).index as int },
    {
        let r = self.vector.get(self.index);
        if self.index < 3 {
            self.index = self.index + 1;
        }
        r
    }
}

/// Walks the components of a `Vector4` in order, from index `index` on.
#[derive(Debug, Clone, Copy)]
pub struct Vector4Iterator<T> {
    pub vector: Vector4<T>,
    pub index: usize,
}

impl<T: Scalar> Vector4Iterator<T> {
    pub fn new(vector: Vector4<T>) -> (r: Self)
        ensures
            r.vector == vector,
            r.index == 0,
    {
        Vector4Iterator { vector, index: 0 }
    }

    /// The next component, or `None` once all 4 have been handed out.
    pub fn next(&mut self) -> (r: Option<T>)
        ensures
            r == get_result(old(self).vector.comps(), old(self).index as int),
            final(self).vector == old(self).vector,
            final(self).index == if old(self).index < 4 { old(self).index + 1 } else { old(self).index as int },
    {
        let r = self.vector.get(self.index);
        if self.index < 4 {
            self.index = self.index + 1;
        }
        r
    }
}

} // verus!
