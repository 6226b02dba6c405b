use vstd::prelude::*;

use crate::scalar::Scalar;
use crate::vector::{Vector, Vector3, vals};

verus! {

/// A coordinate axis.
#[derive(Debug, Clone, Copy, PartialEq, Eq)]
pub enum Axis {
    X,
    Y,
    Z,
}

/// The unit vector along `a`.
pub open spec fn axis_unit(a: Axis) -> Seq<int> {
    match a {
        Axis::X => seq![1, 0, 0],
        Axis::Y => seq![0, 1, 0],
        Axis::Z => seq![0, 0, 1],
    }
}

impl Axis {
    /// The unit vector along this axis.
    pub fn unit<T: Scalar>(self) -> (r: Vector3<T>)
        ensures
            vals(r.comps()) == axis_unit(self),
    {
        let (o, z) = (T::one(), T::zero());
        let r = match self {
            Axis::X => Vector3::new(o, z, z),
            Axis::Y => Vector3::new(z, o, z),
            Axis::Z => Vector3::new(z, z, o),
        };
        assert(vals(r.comps()) =~= axis_unit(self));
        r
    }
}

} // verus!
