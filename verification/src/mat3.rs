//! Three-by-three matrices and the 2D affine transforms embedded in them.
//!
//! A matrix is stored as its three columns. The entry `at(col, row)` is
//! component `row` of column `col`.

use crate::scalar::Binary32;
use crate::vec2::Vec2;
use crate::vec3::Vec3;
use core::ops::Neg;
use vstd::prelude::*;
use vstd::std_specs::cmp::PartialEqSpecImpl;
use vstd::std_specs::ops::NegSpecImpl;

verus! {

/// A matrix stored as its three columns.
#[derive(Clone, Copy, Debug)]
pub struct Mat3 {
    pub c0: Vec3,
    pub c1: Vec3,
    pub c2: Vec3,
}

impl Mat3 {
    /// Whether the two hold equal numbers in every place: numeric
    /// equality, under which the two zeros are equal and a NaN equals
    /// nothing, itself included.
    pub open spec fn same_numbers(self, other: Mat3) -> bool {
        &&& self.c0.same_numbers(other.c0)
        &&& self.c1.same_numbers(other.c1)
        &&& self.c2.same_numbers(other.c2)
    }

    /// The column with the given index; indices past the last read as the last.
    pub open spec fn col(self, col: int) -> Vec3 {
        if col <= 0 {
            self.c0
        } else if col == 1 {
            self.c1
        } else {
            self.c2
        }
    }

    /// The entry in the given column and row.
    pub open spec fn at(self, col: int, row: int) -> Binary32 {
        self.col(col).at(row)
    }

    /// The matrix with rows and columns exchanged.
    pub open spec fn transposed(self) -> Mat3 {
        Mat3 {
            c0: Vec3 { x: self.c0.x, y: self.c1.x, z: self.c2.x },
            c1: Vec3 { x: self.c0.y, y: self.c1.y, z: self.c2.y },
            c2: Vec3 { x: self.c0.z, y: self.c1.z, z: self.c2.z },
        }
    }

    /// Every entry under the opposite sign.
    pub open spec fn negated(self) -> Mat3 {
        Mat3 { c0: self.c0.negated(), c1: self.c1.negated(), c2: self.c2.negated() }
    }

    /// The entry that the checkerboard pattern leaves in a place: the entry
    /// itself where column and row indices add up to an even number, its
    /// negation elsewhere.
    pub open spec fn checkered_at(self, col: int, row: int) -> Binary32 {
        if (col + row) % 2 == 0 {
            self.at(col, row)
        } else {
            self.at(col, row).negated()
        }
    }

    /// The matrix under the checkerboard sign pattern.
    pub open spec fn checkered(self) -> Mat3 {
        Mat3 {
            c0: Vec3 {
                x: self.checkered_at(0, 0),
                y: self.checkered_at(0, 1),
                z: self.checkered_at(0, 2),
            },
            c1: Vec3 {
                x: self.checkered_at(1, 0),
                y: self.checkered_at(1, 1),
                z: self.checkered_at(1, 2),
            },
            c2: Vec3 {
                x: self.checkered_at(2, 0),
                y: self.checkered_at(2, 1),
                z: self.checkered_at(2, 2),
            },
        }
    }

    /// The matrix with the given diagonal and positive zero elsewhere.
    pub open spec fn diagonal(d0: Binary32, d1: Binary32, d2: Binary32) -> Mat3 {
        Mat3 {
            c0: Vec3 { x: d0, y: Binary32::zero(), z: Binary32::zero() },
            c1: Vec3 { x: Binary32::zero(), y: d1, z: Binary32::zero() },
            c2: Vec3 { x: Binary32::zero(), y: Binary32::zero(), z: d2 },
        }
    }

    /// The matrix that `new` builds, as a value of specifications.
    pub open spec fn spec_new(
        m00: Binary32,
        m01: Binary32,
        m02: Binary32,
        m10: Binary32,
        m11: Binary32,
        m12: Binary32,
        m20: Binary32,
        m21: Binary32,
        m22: Binary32,
    ) -> Mat3 {
        Mat3 {
            c0: Vec3 { x: m00, y: m01, z: m02 },
            c1: Vec3 { x: m10, y: m11, z: m12 },
            c2: Vec3 { x: m20, y: m21, z: m22 },
        }
    }

    /// The matrix whose entries are all positive zero.
    pub fn zero() -> (m: Mat3)
        ensures
            m == Mat3::diagonal(Binary32::zero(), Binary32::zero(), Binary32::zero()),
    {
        Mat3 { c0: Vec3::zero(), c1: Vec3::zero(), c2: Vec3::zero() }
    }

    /// The identity matrix: one on the diagonal, positive zero elsewhere.
    pub fn identity() -> (m: Mat3)
        ensures
            m == Mat3::diagonal(Binary32::one(), Binary32::one(), Binary32::one()),
    {
        let o = Binary32::zero();
        let i = Binary32::one();
        Mat3 { c0: Vec3::new(i, o, o), c1: Vec3::new(o, i, o), c2: Vec3::new(o, o, i) }
    }

    /// Builds a matrix from nine entries. Each run of three fills one
    /// column: `m01` is row 1 of column 0. Read as lines of text, the
    /// arguments therefore show the columns, not the rows.
    #[verifier::when_used_as_spec(spec_new)]
    pub fn new(
        m00: Binary32,
        m01: Binary32,
        m02: Binary32,
        m10: Binary32,
        m11: Binary32,
        m12: Binary32,
        m20: Binary32,
        m21: Binary32,
        m22: Binary32,
    ) -> (m: Mat3)
        ensures
            m == Mat3::spec_new(m00, m01, m02, m10, m11, m12, m20, m21, m22),
            m.at(0, 0) == m00,
            m.at(0, 1) == m01,
            m.at(0, 2) == m02,
            m.at(1, 0) == m10,
            m.at(1, 1) == m11,
            m.at(1, 2) == m12,
            m.at(2, 0) == m20,
            m.at(2, 1) == m21,
            m.at(2, 2) == m22,
    {
        Mat3 {
            c0: Vec3::new(m00, m01, m02),
            c1: Vec3::new(m10, m11, m12),
            c2: Vec3::new(m20, m21, m22),
        }
    }

    /// Builds a matrix from its three columns.
    pub fn from_cols(c0: Vec3, c1: Vec3, c2: Vec3) -> (m: Mat3)
        ensures
            m.c0 == c0,
            m.c1 == c1,
            m.c2 == c2,
    {
        Mat3 { c0, c1, c2 }
    }

    /// Builds the matrix that `new` builds from the same nine entries in
    /// the same order: entry `3 * col + row` of the array lands in column
    /// `col`, row `row`.
    pub fn from_array(arr: [Binary32; 9]) -> (m: Mat3)
        ensures
            m == Mat3::new(
                arr[0],
                arr[1],
                arr[2],
                arr[3],
                arr[4],
                arr[5],
                arr[6],
                arr[7],
                arr[8],
            ),
            forall|col: int, row: int|
                0 <= col < 3 && 0 <= row < 3 ==> #[trigger] m.at(col, row) == arr[3 * col + row],
    {
        Mat3 {
            c0: Vec3::new(arr[0], arr[1], arr[2]),
            c1: Vec3::new(arr[3], arr[4], arr[5]),
            c2: Vec3::new(arr[6], arr[7], arr[8]),
        }
    }

    /// Exchanges rows and columns.
    pub fn transpose(self) -> (m: Mat3)
        ensures
            m == self.transposed(),
            forall|col: int, row: int|
                0 <= col < 3 && 0 <= row < 3 ==> #[trigger] m.at(col, row) == self.at(row, col),
    {
        Mat3 {
            c0: Vec3::new(self.c0.x, self.c1.x, self.c2.x),
            c1: Vec3::new(self.c0.y, self.c1.y, self.c2.y),
            c2: Vec3::new(self.c0.z, self.c1.z, self.c2.z),
        }
    }

    /// Applies the checkerboard sign pattern, which turns a matrix of minors
    /// into the matrix of cofactors: entries whose column and row indices
    /// add up to an odd number change sign, the others stay.
    pub fn cofactor_signs(self) -> (m: Mat3)
        ensures
            m == self.checkered(),
            forall|col: int, row: int|
                0 <= col < 3 && 0 <= row < 3 ==> #[trigger] m.at(col, row) == self.checkered_at(
                    col,
                    row,
                ),
    {
        Mat3 {
            c0: Vec3::new(self.c0.x, self.c0.y.neg(), self.c0.z),
            c1: Vec3::new(self.c1.x.neg(), self.c1.y, self.c1.z.neg()),
            c2: Vec3::new(self.c2.x, self.c2.y.neg(), self.c2.z),
        }
    }

    /// The rotation whose angle has the given cosine and sine, embedded in
    /// homogeneous form: column 0 is `(cos, -sin, 0)`, column 1 is
    /// `(sin, cos, 0)`, column 2 is `(0, 0, 1)`. The receiver is not read.
    pub fn rotate(self, cos: Binary32, sin: Binary32) -> (m: Mat3)
        ensures
            m == Mat3::new(
                cos,
                sin.negated(),
                Binary32::zero(),
                sin,
                cos,
                Binary32::zero(),
                Binary32::zero(),
                Binary32::zero(),
                Binary32::one(),
            ),
    {
        let o = Binary32::zero();
        let i = Binary32::one();
        Mat3 { c0: Vec3::new(cos, sin.neg(), o), c1: Vec3::new(sin, cos, o), c2: Vec3::new(o, o, i) }
    }

    /// The scaling by the given factors, embedded in homogeneous form: the
    /// diagonal is `(x, y, 1)`, every other entry is positive zero.
    pub fn scale(scale: Vec2) -> (m: Mat3)
        ensures
            m == Mat3::diagonal(scale.x, scale.y, Binary32::one()),
    {
        let o = Binary32::zero();
        let i = Binary32::one();
        Mat3 {
            c0: Vec3::new(scale.x, o, o),
            c1: Vec3::new(o, scale.y, o),
            c2: Vec3::new(o, o, i),
        }
    }

    /// The translation by the given offsets, embedded in homogeneous form:
    /// the identity with `(x, y, 1)` in place of its last column.
    pub fn translate(translation: Vec2) -> (m: Mat3)
        ensures
            m.c0 == Mat3::diagonal(Binary32::one(), Binary32::one(), Binary32::one()).c0,
            m.c1 == Mat3::diagonal(Binary32::one(), Binary32::one(), Binary32::one()).c1,
            m.c2.x == translation.x,
            m.c2.y == translation.y,
            m.c2.z == Binary32::one(),
    {
        let o = Binary32::zero();
        let i = Binary32::one();
        Mat3 {
            c0: Vec3::new(i, o, o),
            c1: Vec3::new(o, i, o),
            c2: Vec3::new(translation.x, translation.y, i),
        }
    }
}

impl Neg for Mat3 {
    type Output = Mat3;

    /// Negates every column.
    fn neg(self) -> (r: Mat3) {
        Mat3 { c0: self.c0.neg(), c1: self.c1.neg(), c2: self.c2.neg() }
    }
}

impl NegSpecImpl for Mat3 {
    open spec fn obeys_neg_spec() -> bool {
        true
    }

    open spec fn neg_req(self) -> bool {
        true
    }

    open spec fn neg_spec(self) -> Mat3 {
        self.negated()
    }
}

/// Two matrices with the same nine entries are the same matrix.
pub proof fn lemma_entries_determine(a: Mat3, b: Mat3)
    requires
        forall|col: int, row: int|
            0 <= col < 3 && 0 <= row < 3 ==> #[trigger] a.at(col, row) == b.at(col, row),
    ensures
        a == b,
{
    assert(a.at(0, 0) == b.at(0, 0));
    assert(a.at(0, 1) == b.at(0, 1));
    assert(a.at(0, 2) == b.at(0, 2));
    assert(a.at(1, 0) == b.at(1, 0));
    assert(a.at(1, 1) == b.at(1, 1));
    assert(a.at(1, 2) == b.at(1, 2));
    assert(a.at(2, 0) == b.at(2, 0));
    assert(a.at(2, 1) == b.at(2, 1));
    assert(a.at(2, 2) == b.at(2, 2));
}

/// Transposing twice gives the matrix back, entry for entry and bit for bit.
pub proof fn lemma_transpose_involution(m: Mat3)
    ensures
        m.transposed().transposed() == m,
{
}

/// Transposing exchanges the two indices of every entry.
pub proof fn lemma_transpose_entries(m: Mat3, col: int, row: int)
    requires
        0 <= col < 3,
        0 <= row < 3,
    ensures
        m.transposed().at(col, row) == m.at(row, col),
{
}

/// The checkerboard pattern is symmetric, so it does not matter whether the
/// signs are applied before transposing or after: the adjugate is the same.
pub proof fn lemma_checkered_commutes_with_transpose(m: Mat3)
    ensures
        m.checkered().transposed() == m.transposed().checkered(),
{
}

/// Applying the checkerboard pattern twice gives the matrix back.
pub proof fn lemma_checkered_involution(m: Mat3)
    ensures
        m.checkered().checkered() == m,
{
}

/// Negating twice gives the matrix back, and negation commutes with
/// transposition.
pub proof fn lemma_negation(m: Mat3)
    ensures
        m.negated().negated() == m,
        m.negated().transposed() == m.transposed().negated(),
{
}

/// A diagonal matrix holds its diagonal where column and row agree and
/// positive zero everywhere else, and it is its own transpose.
pub proof fn lemma_diagonal(d0: Binary32, d1: Binary32, d2: Binary32)
    ensures
        Mat3::diagonal(d0, d1, d2).at(0, 0) == d0,
        Mat3::diagonal(d0, d1, d2).at(1, 1) == d1,
        Mat3::diagonal(d0, d1, d2).at(2, 2) == d2,
        forall|col: int, row: int|
            0 <= col < 3 && 0 <= row < 3 && col != row ==> #[trigger] Mat3::diagonal(d0, d1, d2).at(
                col,
                row,
            ) == Binary32::zero(),
        Mat3::diagonal(d0, d1, d2).transposed() == Mat3::diagonal(d0, d1, d2),
{
}

impl PartialEq for Mat3 {
    /// Numeric equality in every place.
    fn eq(&self, other: &Mat3) -> (r: bool) {
        self.c0 == other.c0 && self.c1 == other.c1 && self.c2 == other.c2
    }
}

impl PartialEqSpecImpl for Mat3 {
    open spec fn obeys_eq_spec() -> bool {
        true
    }

    open spec fn eq_spec(&self, other: &Mat3) -> bool {
        self.same_numbers(*other)
    }
}

} // verus!
