//! Fixed-point 3×3 matrices and the adjugate inverse. Entries are
//! scaled by [`UNIT`], so the inverse of a matrix standing for `A` is
//! the matrix standing for `A⁻¹`: the adjugate times `UNIT²`, divided
//! by the determinant with truncation.

use vstd::prelude::*;
use crate::math::geometry::{tdiv, tdiv_i128};
use crate::math::vector::{in_range, lemma_mul_bounds, UNIT};

verus! {

/// Largest entry magnitude `inverse` accepts; keeps every cofactor and
/// determinant term inside its machine type.
pub const MAX_MATRIX_ENTRY: i64 = 0x40000000;

/// A 3×3 matrix of fixed-point entries, row-major.
#[derive(Clone, Copy, PartialEq, Eq, Debug)]
pub struct Matrix3x3 {
    pub m: [[i64; 3]; 3],
}

impl Matrix3x3 {
    /// Entry at row `i`, column `j`.
    pub open spec fn at(self, i: int, j: int) -> int {
        self.m@[i]@[j] as int
    }

    /// Whether every entry lies within `±b`.
    pub open spec fn entries_bounded(self, b: int) -> bool {
        forall|i: int, j: int| 0 <= i < 3 && 0 <= j < 3 ==> in_range(#[trigger] self.at(i, j), b)
    }

    /// The determinant of the matrix with row `i` and column `j`
    /// removed, both remaining rows and columns kept in order.
    pub open spec fn minor_det(self, i: int, j: int) -> int {
        let r1: int = if i == 0 { 1 } else { 0 };
        let r2: int = if i == 2 { 1 } else { 2 };
        let c1: int = if j == 0 { 1 } else { 0 };
        let c2: int = if j == 2 { 1 } else { 2 };
        self.at(r1, c1) * self.at(r2, c2) - self.at(r1, c2) * self.at(r2, c1)
    }

    /// The cofactor at row `i`, column `j`.
    pub open spec fn cofactor(self, i: int, j: int) -> int {
        if (i + j) % 2 == 0 {
            self.minor_det(i, j)
        } else {
            -self.minor_det(i, j)
        }
    }

    /// The determinant, expanded along the first row.
    pub open spec fn det_spec(self) -> int {
        self.at(0, 0) * self.cofactor(0, 0) + self.at(0, 1) * self.cofactor(0, 1) + self.at(0, 2)
            * self.cofactor(0, 2)
    }

    /// One entry of the scaled inverse: the transposed cofactor times
    /// `UNIT²`, divided by the determinant with truncation.
    pub open spec fn inverse_entry(self, i: int, j: int) -> int {
        tdiv(self.cofactor(j, i) * (UNIT * UNIT), self.det_spec())
    }

    /// Whether the scaled inverse exists: a non-zero determinant and
    /// every entry of the quotient inside the entry type.
    pub open spec fn invertible(self) -> bool {
        &&& self.det_spec() != 0
        &&& forall|i: int, j: int|
            0 <= i < 3 && 0 <= j < 3 ==> in_range(
                #[trigger] self.inverse_entry(i, j),
                i64::MAX as int,
            )
    }

    pub fn new(m: &[[i64; 3]; 3]) -> (r: Self)
        ensures
            r.m == *m,
    {
        Matrix3x3 { m: *m }
    }

    /// The matrix standing for the identity: `UNIT` on the diagonal.
    pub fn identity() -> (r: Self)
        ensures
            forall|i: int, j: int|
                0 <= i < 3 && 0 <= j < 3 ==> #[trigger] r.at(i, j) == if i == j {
                    UNIT as int
                } else {
                    0
                },
    {
        let r = Matrix3x3 { m: [[UNIT, 0, 0], [0, UNIT, 0], [0, 0, UNIT]] };
        proof {
            assert forall|i: int, j: int| 0 <= i < 3 && 0 <= j < 3 implies #[trigger] r.at(i, j)
                == if i == j { UNIT as int } else { 0 } by {
                assert(r.m@[i]@[j] == if i == j { UNIT } else { 0i64 });
            }
        }
        r
    }

    /// The determinant of the matrix with row `i` and column `j`
    /// removed.
    fn minor(&self, i: usize, j: usize) -> (r: i128)
        requires
            i < 3,
            j < 3,
            self.entries_bounded(MAX_MATRIX_ENTRY as int),
        ensures
            r == self.minor_det(i as int, j as int),
            in_range(r as int, 2 * MAX_MATRIX_ENTRY as int * MAX_MATRIX_ENTRY as int),
    {
        let r1: usize = if i == 0 { 1 } else { 0 };
        let r2: usize = if i == 2 { 1 } else { 2 };
        let c1: usize = if j == 0 { 1 } else { 0 };
        let c2: usize = if j == 2 { 1 } else { 2 };
        proof {
            lemma_mul_bounds(
                self.at(r1 as int, c1 as int),
                self.at(r2 as int, c2 as int),
                MAX_MATRIX_ENTRY as int,
                MAX_MATRIX_ENTRY as int,
            );
            lemma_mul_bounds(
                self.at(r1 as int, c2 as int),
                self.at(r2 as int, c1 as int),
                MAX_MATRIX_ENTRY as int,
                MAX_MATRIX_ENTRY as int,
            );
        }
        (self.m[r1][c1] as i128) * (self.m[r2][c2] as i128) - (self.m[r1][c2] as i128) * (
        self.m[r2][c1] as i128)
    }

    /// The scaled inverse: `None` when the determinant vanishes or an
    /// entry of the quotient leaves the entry type, else the adjugate
    /// times `UNIT²` over the determinant, truncated.
    pub fn inverse(&self) -> (r: Option<Matrix3x3>)
        requires
            self.entries_bounded(MAX_MATRIX_ENTRY as int),
        ensures
            match r {
                Some(inv) => {
                    &&& self.invertible()
                    &&& forall|i: int, j: int|
                        0 <= i < 3 && 0 <= j < 3 ==> #[trigger] inv.at(i, j)
                            == self.inverse_entry(i, j)
                },
                None => !self.invertible(),
            },
    {
        let c00 = self.minor(0, 0);
        let c01 = -self.minor(0, 1);
        let c02 = self.minor(0, 2);
        let c10 = -self.minor(1, 0);
        let c11 = self.minor(1, 1);
        let c12 = -self.minor(1, 2);
        let c20 = self.minor(2, 0);
        let c21 = -self.minor(2, 1);
        let c22 = self.minor(2, 2);
        proof {
            lemma_cof_term_bound(self.at(0, 0), c00 as int);
            lemma_cof_term_bound(self.at(0, 1), c01 as int);
            lemma_cof_term_bound(self.at(0, 2), c02 as int);
        }
        let det: i128 = (self.m[0][0] as i128) * c00 + (self.m[0][1] as i128) * c01 + (
        self.m[0][2] as i128) * c02;
        proof {
            assert(c00 == self.cofactor(0, 0));
            assert(c01 == self.cofactor(0, 1));
            assert(c02 == self.cofactor(0, 2));
            assert(c10 == self.cofactor(1, 0));
            assert(c11 == self.cofactor(1, 1));
            assert(c12 == self.cofactor(1, 2));
            assert(c20 == self.cofactor(2, 0));
            assert(c21 == self.cofactor(2, 1));
            assert(c22 == self.cofactor(2, 2));
            assert(det == self.det_spec());
        }
        if det == 0 {
            return None;
        }
        proof {
            lemma_num_bound(c00 as int);
            lemma_num_bound(c01 as int);
            lemma_num_bound(c02 as int);
            lemma_num_bound(c10 as int);
            lemma_num_bound(c11 as int);
            lemma_num_bound(c12 as int);
            lemma_num_bound(c20 as int);
            lemma_num_bound(c21 as int);
            lemma_num_bound(c22 as int);
        }
        let unit2: i128 = (UNIT as i128) * (UNIT as i128);
        let q00 = tdiv_i128(c00 * unit2, det);
        let q01 = tdiv_i128(c10 * unit2, det);
        let q02 = tdiv_i128(c20 * unit2, det);
        let q10 = tdiv_i128(c01 * unit2, det);
        let q11 = tdiv_i128(c11 * unit2, det);
        let q12 = tdiv_i128(c21 * unit2, det);
        let q20 = tdiv_i128(c02 * unit2, det);
        let q21 = tdiv_i128(c12 * unit2, det);
        let q22 = tdiv_i128(c22 * unit2, det);
        proof {
            assert(q00 == self.inverse_entry(0, 0));
            assert(q01 == self.inverse_entry(0, 1));
            assert(q02 == self.inverse_entry(0, 2));
            assert(q10 == self.inverse_entry(1, 0));
            assert(q11 == self.inverse_entry(1, 1));
            assert(q12 == self.inverse_entry(1, 2));
            assert(q20 == self.inverse_entry(2, 0));
            assert(q21 == self.inverse_entry(2, 1));
            assert(q22 == self.inverse_entry(2, 2));
        }
        let limit: i128 = i64::MAX as i128;
        if q00 > limit || q00 < -limit {
            return None;
        }
        if q01 > limit || q01 < -limit {
            return None;
        }
        if q02 > limit || q02 < -limit {
            return None;
        }
        if q10 > limit || q10 < -limit {
            return None;
        }
        if q11 > limit || q11 < -limit {
            return None;
        }
        if q12 > limit || q12 < -limit {
            return None;
        }
        if q20 > limit || q20 < -limit {
            return None;
        }
        if q21 > limit || q21 < -limit {
            return None;
        }
        if q22 > limit || q22 < -limit {
            return None;
        }
        let inv = Matrix3x3 {
            m: [
                [q00 as i64, q01 as i64, q02 as i64],
                [q10 as i64, q11 as i64, q12 as i64],
                [q20 as i64, q21 as i64, q22 as i64],
            ],
        };
        proof {
            assert forall|i: int, j: int| 0 <= i < 3 && 0 <= j < 3 implies #[trigger] inv.at(i, j)
                == self.inverse_entry(i, j) && in_range(
                self.inverse_entry(i, j),
                i64::MAX as int,
            ) by {
                assert(inv.m@[0]@[0] == q00 as i64 && inv.m@[0]@[1] == q01 as i64 && inv.m@[0]@[2]
                    == q02 as i64);
                assert(inv.m@[1]@[0] == q10 as i64 && inv.m@[1]@[1] == q11 as i64 && inv.m@[1]@[2]
                    == q12 as i64);
                assert(inv.m@[2]@[0] == q20 as i64 && inv.m@[2]@[1] == q21 as i64 && inv.m@[2]@[2]
                    == q22 as i64);
            }
        }
        Some(inv)
    }
}

/// A cofactor keeps a determinant term inside `i128`.
proof fn lemma_cof_term_bound(entry: int, cof: int)
    requires
        in_range(entry, MAX_MATRIX_ENTRY as int),
        in_range(cof, 2 * MAX_MATRIX_ENTRY as int * MAX_MATRIX_ENTRY as int),
    ensures
        in_range(entry * cof, 2 * MAX_MATRIX_ENTRY as int * MAX_MATRIX_ENTRY as int
            * MAX_MATRIX_ENTRY as int),
{
    lemma_mul_bounds(
        entry,
        cof,
        MAX_MATRIX_ENTRY as int,
        2 * MAX_MATRIX_ENTRY as int * MAX_MATRIX_ENTRY as int,
    );
}

/// A cofactor scaled by `UNIT²` stays inside `i128` and above the
/// minimum.
proof fn lemma_num_bound(cof: int)
    requires
        in_range(cof, 2 * MAX_MATRIX_ENTRY as int * MAX_MATRIX_ENTRY as int),
    ensures
        in_range(cof * (UNIT as int * UNIT as int), 2 * MAX_MATRIX_ENTRY as int
            * MAX_MATRIX_ENTRY as int * UNIT as int * UNIT as int),
        cof * (UNIT as int * UNIT as int) != i128::MIN,
{
    assert(in_range(cof * (UNIT as int * UNIT as int), 2 * MAX_MATRIX_ENTRY as int
        * MAX_MATRIX_ENTRY as int * UNIT as int * UNIT as int)) by (nonlinear_arith)
        requires
            in_range(cof, 2 * MAX_MATRIX_ENTRY as int * MAX_MATRIX_ENTRY as int),
    ;
}


} // verus!
