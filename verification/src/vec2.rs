//! Two-component vectors.

use crate::scalar::Binary32;
use vstd::prelude::*;
use vstd::std_specs::cmp::PartialEqSpecImpl;

verus! {

/// A pair of scalars.
#[derive(Clone, Copy, Debug)]
pub struct Vec2 {
    pub x: Binary32,
    pub y: Binary32,
}

impl Vec2 {
    /// Whether the two hold equal numbers in every place: numeric
    /// equality, under which the two zeros are equal and a NaN equals
    /// nothing, itself included.
    pub open spec fn same_numbers(self, other: Vec2) -> bool {
        &&& self.x.same_number(other.x)
        &&& self.y.same_number(other.y)
    }

    /// The vector with the given components.
    pub fn new(x: Binary32, y: Binary32) -> (v: Vec2)
        ensures
            v.x == x,
            v.y == y,
    {
        Vec2 { x, y }
    }
}

impl PartialEq for Vec2 {
    /// Numeric equality in every place.
    fn eq(&self, other: &Vec2) -> (r: bool) {
        self.x == other.x && self.y == other.y
    }
}

impl PartialEqSpecImpl for Vec2 {
    open spec fn obeys_eq_spec() -> bool {
        true
    }

    open spec fn eq_spec(&self, other: &Vec2) -> bool {
        self.same_numbers(*other)
    }
}

} // verus!
