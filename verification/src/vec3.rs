//! Three-component vectors.

use crate::scalar::Binary32;
use core::ops::Neg;
use vstd::prelude::*;
use vstd::std_specs::cmp::PartialEqSpecImpl;
use vstd::std_specs::ops::NegSpecImpl;

verus! {

/// A triple of scalars. As a column of a matrix, `x`, `y` and `z` are its
/// rows 0, 1 and 2.
#[derive(Clone, Copy, Debug)]
pub struct Vec3 {
    pub x: Binary32,
    pub y: Binary32,
    pub z: Binary32,
}

impl Vec3 {
    /// Whether the two hold equal numbers in every place: numeric
    /// equality, under which the two zeros are equal and a NaN equals
    /// nothing, itself included.
    pub open spec fn same_numbers(self, other: Vec3) -> bool {
        &&& self.x.same_number(other.x)
        &&& self.y.same_number(other.y)
        &&& self.z.same_number(other.z)
    }

    /// The component in the given row; rows past the last read as the last.
    pub open spec fn at(self, row: int) -> Binary32 {
        if row <= 0 {
            self.x
        } else if row == 1 {
            self.y
        } else {
            self.z
        }
    }

    /// Every component under the opposite sign.
    pub open spec fn negated(self) -> Vec3 {
        Vec3 { x: self.x.negated(), y: self.y.negated(), z: self.z.negated() }
    }

    /// The vector whose components are all positive zero.
    pub fn zero() -> (v: Vec3)
        ensures
            v.x == Binary32::zero(),
            v.y == Binary32::zero(),
            v.z == Binary32::zero(),
    {
        Vec3 { x: Binary32::zero(), y: Binary32::zero(), z: Binary32::zero() }
    }

    /// The vector with the given components.
    pub fn new(x: Binary32, y: Binary32, z: Binary32) -> (v: Vec3)
        ensures
            v.x == x,
            v.y == y,
            v.z == z,
    {
        Vec3 { x, y, z }
    }
}

impl Neg for Vec3 {
    type Output = Vec3;

    /// Negates every component.
    fn neg(self) -> (r: Vec3) {
        Vec3 { x: self.x.neg(), y: self.y.neg(), z: self.z.neg() }
    }
}

impl NegSpecImpl for Vec3 {
    open spec fn obeys_neg_spec() -> bool {
        true
    }

    open spec fn neg_req(self) -> bool {
        true
    }

    open spec fn neg_spec(self) -> Vec3 {
        self.negated()
    }
}

impl PartialEq for Vec3 {
    /// Numeric equality in every place.
    fn eq(&self, other: &Vec3) -> (r: bool) {
        self.x == other.x && self.y == other.y && self.z == other.z
    }
}

impl PartialEqSpecImpl for Vec3 {
    open spec fn obeys_eq_spec() -> bool {
        true
    }

    open spec fn eq_spec(&self, other: &Vec3) -> bool {
        self.same_numbers(*other)
    }
}

} // verus!
