//! Four-component vectors.

use crate::scalar::Binary32;
use core::ops::Neg;
use vstd::prelude::*;
use vstd::std_specs::cmp::PartialEqSpecImpl;
use vstd::std_specs::ops::NegSpecImpl;

verus! {

/// A quadruple of scalars. As a column of a matrix, `x`, `y`, `z` and `w`
/// are its rows 0 to 3.
#[derive(Clone, Copy, Debug)]
pub struct Vec4 {
    pub x: Binary32,
    pub y: Binary32,
    pub z: Binary32,
    pub w: Binary32,
}

impl Vec4 {
    /// Whether the two hold equal numbers in every place: numeric
    /// equality, under which the two zeros are equal and a NaN equals
    /// nothing, itself included.
    pub open spec fn same_numbers(self, other: Vec4) -> bool {
        &&& self.x.same_number(other.x)
        &&& self.y.same_number(other.y)
        &&& self.z.same_number(other.z)
        &&& self.w.same_number(other.w)
    }

    /// Every component under the opposite sign.
    pub open spec fn negated(self) -> Vec4 {
        Vec4 {
            x: self.x.negated(),
            y: self.y.negated(),
            z: self.z.negated(),
            w: self.w.negated(),
        }
    }
}

impl Neg for Vec4 {
    type Output = Vec4;

    /// Negates every component.
    fn neg(self) -> (r: Vec4) {
        Vec4 { x: self.x.neg(), y: self.y.neg(), z: self.z.neg(), w: self.w.neg() }
    }
}

impl NegSpecImpl for Vec4 {
    open spec fn obeys_neg_spec() -> bool {
        true
    }

    open spec fn neg_req(self) -> bool {
        true
    }

    open spec fn neg_spec(self) -> Vec4 {
        self.negated()
    }
}

impl PartialEq for Vec4 {
    /// Numeric equality in every place.
    fn eq(&self, other: &Vec4) -> (r: bool) {
        self.x == other.x
            && self.y == other.y
            && self.z == other.z
            && self.w == other.w
    }
}

impl PartialEqSpecImpl for Vec4 {
    open spec fn obeys_eq_spec() -> bool {
        true
    }

    open spec fn eq_spec(&self, other: &Vec4) -> bool {
        self.same_numbers(*other)
    }
}

} // verus!
