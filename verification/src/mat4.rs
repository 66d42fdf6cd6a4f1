//! Four-by-four matrices.

use crate::vec4::Vec4;
use core::ops::Neg;
use vstd::prelude::*;
use vstd::std_specs::cmp::PartialEqSpecImpl;
use vstd::std_specs::ops::NegSpecImpl;

verus! {

/// A matrix stored as its four columns.
#[derive(Clone, Copy, Debug)]
pub struct Mat4 {
    pub c0: Vec4,
    pub c1: Vec4,
    pub c2: Vec4,
    pub c3: Vec4,
}

impl Mat4 {
    /// Whether the two hold equal numbers in every place: numeric
    /// equality, under which the two zeros are equal and a NaN equals
    /// nothing, itself included.
    pub open spec fn same_numbers(self, other: Mat4) -> bool {
        &&& self.c0.same_numbers(other.c0)
        &&& self.c1.same_numbers(other.c1)
        &&& self.c2.same_numbers(other.c2)
        &&& self.c3.same_numbers(other.c3)
    }

    /// Every entry under the opposite sign.
    pub open spec fn negated(self) -> Mat4 {
        Mat4 {
            c0: self.c0.negated(),
            c1: self.c1.negated(),
            c2: self.c2.negated(),
            c3: self.c3.negated(),
        }
    }
}

impl Neg for Mat4 {
    type Output = Mat4;

    /// Negates every column.
    fn neg(self) -> (r: Mat4) {
        Mat4 { c0: self.c0.neg(), c1: self.c1.neg(), c2: self.c2.neg(), c3: self.c3.neg() }
    }
}

impl NegSpecImpl for Mat4 {
    open spec fn obeys_neg_spec() -> bool {
        true
    }

    open spec fn neg_req(self) -> bool {
        true
    }

    open spec fn neg_spec(self) -> Mat4 {
        self.negated()
    }
}

impl PartialEq for Mat4 {
    /// Numeric equality in every place.
    fn eq(&self, other: &Mat4) -> (r: bool) {
        self.c0 == other.c0
            && self.c1 == other.c1
            && self.c2 == other.c2
            && self.c3 == other.c3
    }
}

impl PartialEqSpecImpl for Mat4 {
    open spec fn obeys_eq_spec() -> bool {
        true
    }

    open spec fn eq_spec(&self, other: &Mat4) -> bool {
        self.same_numbers(*other)
    }
}

} // verus!
