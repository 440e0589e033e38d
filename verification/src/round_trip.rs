//! Matrix to quaternion and back, for matrices that are rotations only up to
//! a tolerance.
//!
//! A matrix read from the wire is a rotation rounded to 14 fractional bits,
//! so its rows are orthonormal only nearly. This module measures how far a
//! matrix is from a rotation and bounds what the conversion to a quaternion
//! and back makes of that.

use crate::rotation::{
    lemma_radicand_at_least_one, quaternion_lead, quaternion_numerator, quaternion_radicand,
    recovered_entry,
};
use crate::types::ONE_SQ;
use vstd::prelude::*;

verus! {

/// How far a matrix may be from a rotation, in each of the measures of
/// `near_rotation`: one part in three thousand, with 56 fractional bits.
pub const ROTATION_TOLERANCE: i64 = 24019198012642;

/// Dot product of rows `i` and `j` of `m`, less one if they are the same row:
/// zero for orthonormal rows. It carries 56 fractional bits.
pub open spec fn row_defect(m: [[i64; 3]; 3], i: int, j: int) -> int {
    m[i][0] * m[j][0] + m[i][1] * m[j][1] + m[i][2] * m[j][2] - (if i == j {
        ONE_SQ * ONE_SQ
    } else {
        0
    })
}

/// Dot product of columns `i` and `j` of `m`, less one if they are the same
/// column: zero for orthonormal columns. It carries 56 fractional bits.
pub open spec fn column_defect(m: [[i64; 3]; 3], i: int, j: int) -> int {
    m[0][i] * m[0][j] + m[1][i] * m[1][j] + m[2][i] * m[2][j] - (if i == j {
        ONE_SQ * ONE_SQ
    } else {
        0
    })
}

/// Cofactor of entry `[i][j]` of `m`, with its sign.
pub open spec fn cofactor(m: [[i64; 3]; 3], i: int, j: int) -> int {
    m[(i + 1) % 3][(j + 1) % 3] * m[(i + 2) % 3][(j + 2) % 3] - m[(i + 1) % 3][(j + 2) % 3] * m[(i
        + 2) % 3][(j + 1) % 3]
}

/// Entry `[i][j]` of `m` less its cofactor: zero for a rotation, which is its
/// own cofactor matrix, and not for a reflection. It carries 56 fractional
/// bits.
pub open spec fn cofactor_defect(m: [[i64; 3]; 3], i: int, j: int) -> int {
    m[i][j] * ONE_SQ - cofactor(m, i, j)
}

/// Whether `m` is a rotation matrix within `ROTATION_TOLERANCE`: its rows are
/// orthonormal, its columns are orthonormal, and every entry equals its
/// cofactor, each up to the tolerance.
pub open spec fn near_rotation(m: [[i64; 3]; 3]) -> bool {
    &&& forall|i: int, j: int|
        0 <= i < 3 && 0 <= j < 3 ==> -ROTATION_TOLERANCE <= #[trigger] row_defect(m, i, j)
            <= ROTATION_TOLERANCE
    &&& forall|i: int, j: int|
        0 <= i < 3 && 0 <= j < 3 ==> -ROTATION_TOLERANCE <= #[trigger] column_defect(m, i, j)
            <= ROTATION_TOLERANCE
    &&& forall|i: int, j: int|
        0 <= i < 3 && 0 <= j < 3 ==> -ROTATION_TOLERANCE <= #[trigger] cofactor_defect(m, i, j)
            <= ROTATION_TOLERANCE
}

/// What the conversion to a quaternion and back adds to entry `[r][c]` of
/// `m`, multiplied by four times the radicand.
pub open spec fn round_trip_error(m: [[i64; 3]; 3], r: int, c: int) -> int {
    recovered_entry(m, r, c) - 4 * quaternion_radicand(m) * m[r][c]
}

/// Matrix to quaternion and back agrees with the matrix to within a
/// thousandth per entry, for every matrix that is a rotation within
/// `ROTATION_TOLERANCE`.
///
/// The entry of the matrix of the recovered quaternion and the entry of `m`
/// are both taken multiplied by four times the radicand, which is at least
/// one; a thousand times their difference is at most that multiple of one.
pub proof fn lemma_near_rotation_round_trip(m: [[i64; 3]; 3])
    requires
        near_rotation(m),
    ensures
        quaternion_radicand(m) >= ONE_SQ,
        forall|r: int, c: int|
            0 <= r < 3 && 0 <= c < 3 ==> -4 * quaternion_radicand(m) * ONE_SQ <= 1000
                * #[trigger] round_trip_error(m, r, c) <= 4 * quaternion_radicand(m) * ONE_SQ,
{
    lemma_radicand_at_least_one(m);
    let lead = quaternion_lead(m);
    if lead == 0 {
        lemma_round_trip_error_lead_w(m);
    } else if lead == 1 {
        lemma_round_trip_error_lead_x(m);
    } else if lead == 2 {
        lemma_round_trip_error_lead_y(m);
    } else {
        lemma_round_trip_error_lead_z(m);
    }
    let bound = 4 * quaternion_radicand(m) * ONE_SQ;
    assert(bound >= 12000 * ROTATION_TOLERANCE);
    assert forall|r: int, c: int| 0 <= r < 3 && 0 <= c < 3 implies -bound <= 1000
        * #[trigger] round_trip_error(m, r, c) <= bound by {
        assert(-12 * ROTATION_TOLERANCE <= round_trip_error(m, r, c) <= 12 * ROTATION_TOLERANCE);
    }
}

/// Where `w` leads, what the round trip adds to each entry is a sum of
/// defects with whole coefficients that come to twelve at most. The proof
/// multiplies out every product of two numerators and of the radicand with an
/// entry, after which the claim is linear in the products of two entries.
proof fn lemma_round_trip_error_lead_w(m: [[i64; 3]; 3])
    requires
        quaternion_lead(m) == 0,
    ensures
        round_trip_error(m, 0, 0) == 4 * cofactor_defect(m, 1, 1) + 4 * cofactor_defect(m, 2, 2)
            + (-2) * column_defect(m, 0, 0) + (-2) * row_defect(m, 0, 0),
        round_trip_error(m, 0, 1) == (-2) * cofactor_defect(m, 0, 1) + (-2) * cofactor_defect(m,
            1, 0) + (-2) * column_defect(m, 0, 1) + (-2) * row_defect(m, 0, 1),
        round_trip_error(m, 0, 2) == (-2) * cofactor_defect(m, 0, 2) + (-2) * cofactor_defect(m,
            2, 0) + (-2) * column_defect(m, 0, 2) + (-2) * row_defect(m, 0, 2),
        round_trip_error(m, 1, 0) == (-2) * cofactor_defect(m, 0, 1) + (-2) * cofactor_defect(m,
            1, 0) + (-2) * column_defect(m, 0, 1) + (-2) * row_defect(m, 0, 1),
        round_trip_error(m, 1, 1) == 4 * cofactor_defect(m, 0, 0) + 4 * cofactor_defect(m, 2, 2)
            + (-2) * column_defect(m, 1, 1) + (-2) * row_defect(m, 1, 1),
        round_trip_error(m, 1, 2) == (-2) * cofactor_defect(m, 1, 2) + (-2) * cofactor_defect(m,
            2, 1) + (-2) * column_defect(m, 1, 2) + (-2) * row_defect(m, 1, 2),
        round_trip_error(m, 2, 0) == (-2) * cofactor_defect(m, 0, 2) + (-2) * cofactor_defect(m,
            2, 0) + (-2) * column_defect(m, 0, 2) + (-2) * row_defect(m, 0, 2),
        round_trip_error(m, 2, 1) == (-2) * cofactor_defect(m, 1, 2) + (-2) * cofactor_defect(m,
            2, 1) + (-2) * column_defect(m, 1, 2) + (-2) * row_defect(m, 1, 2),
        round_trip_error(m, 2, 2) == 4 * cofactor_defect(m, 0, 0) + 4 * cofactor_defect(m, 1, 1)
            + (-2) * column_defect(m, 2, 2) + (-2) * row_defect(m, 2, 2),
{
    let s = ONE_SQ as int;
    let (m00, m01, m02) = (m[0][0] as int, m[0][1] as int, m[0][2] as int);
    let (m10, m11, m12) = (m[1][0] as int, m[1][1] as int, m[1][2] as int);
    let (m20, m21, m22) = (m[2][0] as int, m[2][1] as int, m[2][2] as int);
    let r = quaternion_radicand(m);
    let w = quaternion_numerator(m, 0);
    let x = quaternion_numerator(m, 1);
    let y = quaternion_numerator(m, 2);
    let z = quaternion_numerator(m, 3);
    assert(m20 * m01 == m01 * m20) by (nonlinear_arith);
    assert(m20 * m02 == m02 * m20) by (nonlinear_arith);
    assert(m21 * m00 == m00 * m21) by (nonlinear_arith);
    assert(m21 * m02 == m02 * m21) by (nonlinear_arith);
    assert(m22 * m00 == m00 * m22) by (nonlinear_arith);
    assert(m22 * m01 == m01 * m22) by (nonlinear_arith);
    assert(y * y == m02 * m02 - 2 * (m02 * m20) + m20 * m20) by (nonlinear_arith)
        requires
            y == m02 - m20,
    ;
    assert(z * z == m01 * m01 - 2 * (m01 * m10) + m10 * m10) by (nonlinear_arith)
        requires
            z == m10 - m01,
    ;
    assert(x * x == m12 * m12 - 2 * (m12 * m21) + m21 * m21) by (nonlinear_arith)
        requires
            x == m21 - m12,
    ;
    assert(x * y == -(m02 * m12) + m02 * m21 + m12 * m20 - m20 * m21) by (nonlinear_arith)
        requires
            x == m21 - m12,
            y == m02 - m20,
    ;
    assert(z * w == -(s * m01) + s * m10 - m00 * m01 + m00 * m10 - m01 * m11 - m01 * m22 + m10 *
        m11 + m10 * m22) by (nonlinear_arith)
        requires
            z == m10 - m01,
            w == s + m00 + m11 + m22,
    ;
    assert(x * z == m01 * m12 - m01 * m21 - m10 * m12 + m10 * m21) by (nonlinear_arith)
        requires
            x == m21 - m12,
            z == m10 - m01,
    ;
    assert(y * w == s * m02 - s * m20 + m00 * m02 - m00 * m20 + m02 * m11 + m02 * m22 - m11 *
        m20 - m20 * m22) by (nonlinear_arith)
        requires
            y == m02 - m20,
            w == s + m00 + m11 + m22,
    ;
    assert(y * z == -(m01 * m02) + m01 * m20 + m02 * m10 - m10 * m20) by (nonlinear_arith)
        requires
            y == m02 - m20,
            z == m10 - m01,
    ;
    assert(x * w == -(s * m12) + s * m21 - m00 * m12 + m00 * m21 - m11 * m12 + m11 * m21 - m12 *
        m22 + m21 * m22) by (nonlinear_arith)
        requires
            x == m21 - m12,
            w == s + m00 + m11 + m22,
    ;
    assert(4 * r * m00 == 4 * (s * m00) + 4 * (m00 * m00) + 4 * (m00 * m11) + 4 * (m00 * m22))
        by (nonlinear_arith)
        requires
            r == s + m00 + m11 + m22,
    ;
    assert(4 * r * m01 == 4 * (s * m01) + 4 * (m00 * m01) + 4 * (m01 * m11) + 4 * (m01 * m22))
        by (nonlinear_arith)
        requires
            r == s + m00 + m11 + m22,
    ;
    assert(4 * r * m02 == 4 * (s * m02) + 4 * (m00 * m02) + 4 * (m02 * m11) + 4 * (m02 * m22))
        by (nonlinear_arith)
        requires
            r == s + m00 + m11 + m22,
    ;
    assert(4 * r * m10 == 4 * (s * m10) + 4 * (m00 * m10) + 4 * (m10 * m11) + 4 * (m10 * m22))
        by (nonlinear_arith)
        requires
            r == s + m00 + m11 + m22,
    ;
    assert(4 * r * m11 == 4 * (s * m11) + 4 * (m00 * m11) + 4 * (m11 * m11) + 4 * (m11 * m22))
        by (nonlinear_arith)
        requires
            r == s + m00 + m11 + m22,
    ;
    assert(4 * r * m12 == 4 * (s * m12) + 4 * (m00 * m12) + 4 * (m11 * m12) + 4 * (m12 * m22))
        by (nonlinear_arith)
        requires
            r == s + m00 + m11 + m22,
    ;
    assert(4 * r * m20 == 4 * (s * m20) + 4 * (m00 * m20) + 4 * (m11 * m20) + 4 * (m20 * m22))
        by (nonlinear_arith)
        requires
            r == s + m00 + m11 + m22,
    ;
    assert(4 * r * m21 == 4 * (s * m21) + 4 * (m00 * m21) + 4 * (m11 * m21) + 4 * (m21 * m22))
        by (nonlinear_arith)
        requires
            r == s + m00 + m11 + m22,
    ;
    assert(4 * r * m22 == 4 * (s * m22) + 4 * (m00 * m22) + 4 * (m11 * m22) + 4 * (m22 * m22))
        by (nonlinear_arith)
        requires
            r == s + m00 + m11 + m22,
    ;
}

/// Where `x` leads, what the round trip adds to each entry is a sum of
/// defects with whole coefficients that come to twelve at most. The proof
/// multiplies out every product of two numerators and of the radicand with an
/// entry, after which the claim is linear in the products of two entries.
proof fn lemma_round_trip_error_lead_x(m: [[i64; 3]; 3])
    requires
        quaternion_lead(m) == 1,
    ensures
        round_trip_error(m, 0, 0) == (-4) * cofactor_defect(m, 1, 1) + (-4) * cofactor_defect(m,
            2, 2) + (-2) * column_defect(m, 0, 0) + (-2) * row_defect(m, 0, 0),
        round_trip_error(m, 0, 1) == (-2) * cofactor_defect(m, 0, 1) + 2 * cofactor_defect(m, 1,
            0) + (-2) * column_defect(m, 0, 1) + 2 * row_defect(m, 0, 1),
        round_trip_error(m, 0, 2) == (-2) * cofactor_defect(m, 0, 2) + 2 * cofactor_defect(m, 2,
            0) + (-2) * column_defect(m, 0, 2) + 2 * row_defect(m, 0, 2),
        round_trip_error(m, 1, 0) == 2 * cofactor_defect(m, 0, 1) + (-2) * cofactor_defect(m, 1,
            0) + 2 * column_defect(m, 0, 1) + (-2) * row_defect(m, 0, 1),
        round_trip_error(m, 1, 1) == (-4) * cofactor_defect(m, 1, 1) + (-2) * column_defect(m,
            0, 0) + (-2) * column_defect(m, 2, 2) + 2 * row_defect(m, 1, 1),
        round_trip_error(m, 1, 2) == (-2) * cofactor_defect(m, 1, 2) + (-2) * cofactor_defect(m,
            2, 1) + 2 * column_defect(m, 1, 2) + 2 * row_defect(m, 1, 2),
        round_trip_error(m, 2, 0) == 2 * cofactor_defect(m, 0, 2) + (-2) * cofactor_defect(m, 2,
            0) + 2 * column_defect(m, 0, 2) + (-2) * row_defect(m, 0, 2),
        round_trip_error(m, 2, 1) == (-2) * cofactor_defect(m, 1, 2) + (-2) * cofactor_defect(m,
            2, 1) + 2 * column_defect(m, 1, 2) + 2 * row_defect(m, 1, 2),
        round_trip_error(m, 2, 2) == (-4) * cofactor_defect(m, 2, 2) + 2 * column_defect(m, 2,
            2) + (-2) * row_defect(m, 0, 0) + (-2) * row_defect(m, 1, 1),
{
    let s = ONE_SQ as int;
    let (m00, m01, m02) = (m[0][0] as int, m[0][1] as int, m[0][2] as int);
    let (m10, m11, m12) = (m[1][0] as int, m[1][1] as int, m[1][2] as int);
    let (m20, m21, m22) = (m[2][0] as int, m[2][1] as int, m[2][2] as int);
    let r = quaternion_radicand(m);
    let w = quaternion_numerator(m, 0);
    let x = quaternion_numerator(m, 1);
    let y = quaternion_numerator(m, 2);
    let z = quaternion_numerator(m, 3);
    assert(m20 * m01 == m01 * m20) by (nonlinear_arith);
    assert(m20 * m02 == m02 * m20) by (nonlinear_arith);
    assert(m21 * m00 == m00 * m21) by (nonlinear_arith);
    assert(m21 * m02 == m02 * m21) by (nonlinear_arith);
    assert(m22 * m00 == m00 * m22) by (nonlinear_arith);
    assert(m22 * m01 == m01 * m22) by (nonlinear_arith);
    assert(y * y == m01 * m01 + 2 * (m01 * m10) + m10 * m10) by (nonlinear_arith)
        requires
            y == m01 + m10,
    ;
    assert(z * z == m02 * m02 + 2 * (m02 * m20) + m20 * m20) by (nonlinear_arith)
        requires
            z == m02 + m20,
    ;
    assert(x * x == s * s + 2 * (s * m00) - 2 * (s * m11) - 2 * (s * m22) + m00 * m00 - 2 * (m00
        * m11) - 2 * (m00 * m22) + m11 * m11 + 2 * (m11 * m22) + m22 * m22) by (nonlinear_arith)
        requires
            x == s + m00 - m11 - m22,
    ;
    assert(x * y == s * m01 + s * m10 + m00 * m01 + m00 * m10 - m01 * m11 - m01 * m22 - m10 *
        m11 - m10 * m22) by (nonlinear_arith)
        requires
            x == s + m00 - m11 - m22,
            y == m01 + m10,
    ;
    assert(z * w == -(m02 * m12) + m02 * m21 - m12 * m20 + m20 * m21) by (nonlinear_arith)
        requires
            z == m02 + m20,
            w == m21 - m12,
    ;
    assert(x * z == s * m02 + s * m20 + m00 * m02 + m00 * m20 - m02 * m11 - m02 * m22 - m11 *
        m20 - m20 * m22) by (nonlinear_arith)
        requires
            x == s + m00 - m11 - m22,
            z == m02 + m20,
    ;
    assert(y * w == -(m01 * m12) + m01 * m21 - m10 * m12 + m10 * m21) by (nonlinear_arith)
        requires
            y == m01 + m10,
            w == m21 - m12,
    ;
    assert(y * z == m01 * m02 + m01 * m20 + m02 * m10 + m10 * m20) by (nonlinear_arith)
        requires
            y == m01 + m10,
            z == m02 + m20,
    ;
    assert(x * w == -(s * m12) + s * m21 - m00 * m12 + m00 * m21 + m11 * m12 - m11 * m21 + m12 *
        m22 - m21 * m22) by (nonlinear_arith)
        requires
            x == s + m00 - m11 - m22,
            w == m21 - m12,
    ;
    assert(4 * r * m00 == 4 * (s * m00) + 4 * (m00 * m00) - 4 * (m00 * m11) - 4 * (m00 * m22))
        by (nonlinear_arith)
        requires
            r == s + m00 - m11 - m22,
    ;
    assert(4 * r * m01 == 4 * (s * m01) + 4 * (m00 * m01) - 4 * (m01 * m11) - 4 * (m01 * m22))
        by (nonlinear_arith)
        requires
            r == s + m00 - m11 - m22,
    ;
    assert(4 * r * m02 == 4 * (s * m02) + 4 * (m00 * m02) - 4 * (m02 * m11) - 4 * (m02 * m22))
        by (nonlinear_arith)
        requires
            r == s + m00 - m11 - m22,
    ;
    assert(4 * r * m10 == 4 * (s * m10) + 4 * (m00 * m10) - 4 * (m10 * m11) - 4 * (m10 * m22))
        by (nonlinear_arith)
        requires
            r == s + m00 - m11 - m22,
    ;
    assert(4 * r * m11 == 4 * (s * m11) + 4 * (m00 * m11) - 4 * (m11 * m11) - 4 * (m11 * m22))
        by (nonlinear_arith)
        requires
            r == s + m00 - m11 - m22,
    ;
    assert(4 * r * m12 == 4 * (s * m12) + 4 * (m00 * m12) - 4 * (m11 * m12) - 4 * (m12 * m22))
        by (nonlinear_arith)
        requires
            r == s + m00 - m11 - m22,
    ;
    assert(4 * r * m20 == 4 * (s * m20) + 4 * (m00 * m20) - 4 * (m11 * m20) - 4 * (m20 * m22))
        by (nonlinear_arith)
        requires
            r == s + m00 - m11 - m22,
    ;
    assert(4 * r * m21 == 4 * (s * m21) + 4 * (m00 * m21) - 4 * (m11 * m21) - 4 * (m21 * m22))
        by (nonlinear_arith)
        requires
            r == s + m00 - m11 - m22,
    ;
    assert(4 * r * m22 == 4 * (s * m22) + 4 * (m00 * m22) - 4 * (m11 * m22) - 4 * (m22 * m22))
        by (nonlinear_arith)
        requires
            r == s + m00 - m11 - m22,
    ;
}

/// Where `y` leads, what the round trip adds to each entry is a sum of
/// defects with whole coefficients that come to twelve at most. The proof
/// multiplies out every product of two numerators and of the radicand with an
/// entry, after which the claim is linear in the products of two entries.
proof fn lemma_round_trip_error_lead_y(m: [[i64; 3]; 3])
    requires
        quaternion_lead(m) == 2,
    ensures
        round_trip_error(m, 0, 0) == (-4) * cofactor_defect(m, 0, 0) + (-2) * column_defect(m,
            1, 1) + (-2) * column_defect(m, 2, 2) + 2 * row_defect(m, 0, 0),
        round_trip_error(m, 0, 1) == (-2) * cofactor_defect(m, 0, 1) + 2 * cofactor_defect(m, 1,
            0) + 2 * column_defect(m, 0, 1) + (-2) * row_defect(m, 0, 1),
        round_trip_error(m, 0, 2) == (-2) * cofactor_defect(m, 0, 2) + (-2) * cofactor_defect(m,
            2, 0) + 2 * column_defect(m, 0, 2) + 2 * row_defect(m, 0, 2),
        round_trip_error(m, 1, 0) == 2 * cofactor_defect(m, 0, 1) + (-2) * cofactor_defect(m, 1,
            0) + (-2) * column_defect(m, 0, 1) + 2 * row_defect(m, 0, 1),
        round_trip_error(m, 1, 1) == (-4) * cofactor_defect(m, 0, 0) + (-4) * cofactor_defect(m,
            2, 2) + (-2) * column_defect(m, 1, 1) + (-2) * row_defect(m, 1, 1),
        round_trip_error(m, 1, 2) == (-2) * cofactor_defect(m, 1, 2) + 2 * cofactor_defect(m, 2,
            1) + (-2) * column_defect(m, 1, 2) + 2 * row_defect(m, 1, 2),
        round_trip_error(m, 2, 0) == (-2) * cofactor_defect(m, 0, 2) + (-2) * cofactor_defect(m,
            2, 0) + 2 * column_defect(m, 0, 2) + 2 * row_defect(m, 0, 2),
        round_trip_error(m, 2, 1) == 2 * cofactor_defect(m, 1, 2) + (-2) * cofactor_defect(m, 2,
            1) + 2 * column_defect(m, 1, 2) + (-2) * row_defect(m, 1, 2),
        round_trip_error(m, 2, 2) == (-4) * cofactor_defect(m, 2, 2) + 2 * column_defect(m, 2,
            2) + (-2) * row_defect(m, 0, 0) + (-2) * row_defect(m, 1, 1),
{
    let s = ONE_SQ as int;
    let (m00, m01, m02) = (m[0][0] as int, m[0][1] as int, m[0][2] as int);
    let (m10, m11, m12) = (m[1][0] as int, m[1][1] as int, m[1][2] as int);
    let (m20, m21, m22) = (m[2][0] as int, m[2][1] as int, m[2][2] as int);
    let r = quaternion_radicand(m);
    let w = quaternion_numerator(m, 0);
    let x = quaternion_numerator(m, 1);
    let y = quaternion_numerator(m, 2);
    let z = quaternion_numerator(m, 3);
    assert(m20 * m01 == m01 * m20) by (nonlinear_arith);
    assert(m21 * m00 == m00 * m21) by (nonlinear_arith);
    assert(m21 * m02 == m02 * m21) by (nonlinear_arith);
    assert(m22 * m01 == m01 * m22) by (nonlinear_arith);
    assert(y * y == s * s - 2 * (s * m00) + 2 * (s * m11) - 2 * (s * m22) + m00 * m00 - 2 * (m00
        * m11) + 2 * (m00 * m22) + m11 * m11 - 2 * (m11 * m22) + m22 * m22) by (nonlinear_arith)
        requires
            y == s + m11 - m00 - m22,
    ;
    assert(z * z == m12 * m12 + 2 * (m12 * m21) + m21 * m21) by (nonlinear_arith)
        requires
            z == m12 + m21,
    ;
    assert(x * x == m01 * m01 + 2 * (m01 * m10) + m10 * m10) by (nonlinear_arith)
        requires
            x == m01 + m10,
    ;
    assert(x * y == s * m01 + s * m10 - m00 * m01 - m00 * m10 + m01 * m11 - m01 * m22 + m10 *
        m11 - m10 * m22) by (nonlinear_arith)
        requires
            x == m01 + m10,
            y == s + m11 - m00 - m22,
    ;
    assert(z * w == m02 * m12 + m02 * m21 - m12 * m20 - m20 * m21) by (nonlinear_arith)
        requires
            z == m12 + m21,
            w == m02 - m20,
    ;
    assert(x * z == m01 * m12 + m01 * m21 + m10 * m12 + m10 * m21) by (nonlinear_arith)
        requires
            x == m01 + m10,
            z == m12 + m21,
    ;
    assert(y * w == s * m02 - s * m20 - m00 * m02 + m00 * m20 + m02 * m11 - m02 * m22 - m11 *
        m20 + m20 * m22) by (nonlinear_arith)
        requires
            y == s + m11 - m00 - m22,
            w == m02 - m20,
    ;
    assert(y * z == s * m12 + s * m21 - m00 * m12 - m00 * m21 + m11 * m12 + m11 * m21 - m12 *
        m22 - m21 * m22) by (nonlinear_arith)
        requires
            y == s + m11 - m00 - m22,
            z == m12 + m21,
    ;
    assert(x * w == m01 * m02 - m01 * m20 + m02 * m10 - m10 * m20) by (nonlinear_arith)
        requires
            x == m01 + m10,
            w == m02 - m20,
    ;
    assert(4 * r * m00 == 4 * (s * m00) - 4 * (m00 * m00) + 4 * (m00 * m11) - 4 * (m00 * m22))
        by (nonlinear_arith)
        requires
            r == s + m11 - m00 - m22,
    ;
    assert(4 * r * m01 == 4 * (s * m01) - 4 * (m00 * m01) + 4 * (m01 * m11) - 4 * (m01 * m22))
        by (nonlinear_arith)
        requires
            r == s + m11 - m00 - m22,
    ;
    assert(4 * r * m02 == 4 * (s * m02) - 4 * (m00 * m02) + 4 * (m02 * m11) - 4 * (m02 * m22))
        by (nonlinear_arith)
        requires
            r == s + m11 - m00 - m22,
    ;
    assert(4 * r * m10 == 4 * (s * m10) - 4 * (m00 * m10) + 4 * (m10 * m11) - 4 * (m10 * m22))
        by (nonlinear_arith)
        requires
            r == s + m11 - m00 - m22,
    ;
    assert(4 * r * m11 == 4 * (s * m11) - 4 * (m00 * m11) + 4 * (m11 * m11) - 4 * (m11 * m22))
        by (nonlinear_arith)
        requires
            r == s + m11 - m00 - m22,
    ;
    assert(4 * r * m12 == 4 * (s * m12) - 4 * (m00 * m12) + 4 * (m11 * m12) - 4 * (m12 * m22))
        by (nonlinear_arith)
        requires
            r == s + m11 - m00 - m22,
    ;
    assert(4 * r * m20 == 4 * (s * m20) - 4 * (m00 * m20) + 4 * (m11 * m20) - 4 * (m20 * m22))
        by (nonlinear_arith)
        requires
            r == s + m11 - m00 - m22,
    ;
    assert(4 * r * m21 == 4 * (s * m21) - 4 * (m00 * m21) + 4 * (m11 * m21) - 4 * (m21 * m22))
        by (nonlinear_arith)
        requires
            r == s + m11 - m00 - m22,
    ;
    assert(4 * r * m22 == 4 * (s * m22) - 4 * (m00 * m22) + 4 * (m11 * m22) - 4 * (m22 * m22))
        by (nonlinear_arith)
        requires
            r == s + m11 - m00 - m22,
    ;
}

/// Where `z` leads, what the round trip adds to each entry is a sum of
/// defects with whole coefficients that come to twelve at most. The proof
/// multiplies out every product of two numerators and of the radicand with an
/// entry, after which the claim is linear in the products of two entries.
proof fn lemma_round_trip_error_lead_z(m: [[i64; 3]; 3])
    requires
        quaternion_lead(m) == 3,
    ensures
        round_trip_error(m, 0, 0) == (-4) * cofactor_defect(m, 0, 0) + (-2) * column_defect(m,
            1, 1) + (-2) * column_defect(m, 2, 2) + 2 * row_defect(m, 0, 0),
        round_trip_error(m, 0, 1) == (-2) * cofactor_defect(m, 0, 1) + (-2) * cofactor_defect(m,
            1, 0) + 2 * column_defect(m, 0, 1) + 2 * row_defect(m, 0, 1),
        round_trip_error(m, 0, 2) == (-2) * cofactor_defect(m, 0, 2) + 2 * cofactor_defect(m, 2,
            0) + 2 * column_defect(m, 0, 2) + (-2) * row_defect(m, 0, 2),
        round_trip_error(m, 1, 0) == (-2) * cofactor_defect(m, 0, 1) + (-2) * cofactor_defect(m,
            1, 0) + 2 * column_defect(m, 0, 1) + 2 * row_defect(m, 0, 1),
        round_trip_error(m, 1, 1) == (-4) * cofactor_defect(m, 1, 1) + (-2) * column_defect(m,
            0, 0) + (-2) * column_defect(m, 2, 2) + 2 * row_defect(m, 1, 1),
        round_trip_error(m, 1, 2) == (-2) * cofactor_defect(m, 1, 2) + 2 * cofactor_defect(m, 2,
            1) + 2 * column_defect(m, 1, 2) + (-2) * row_defect(m, 1, 2),
        round_trip_error(m, 2, 0) == 2 * cofactor_defect(m, 0, 2) + (-2) * cofactor_defect(m, 2,
            0) + (-2) * column_defect(m, 0, 2) + 2 * row_defect(m, 0, 2),
        round_trip_error(m, 2, 1) == 2 * cofactor_defect(m, 1, 2) + (-2) * cofactor_defect(m, 2,
            1) + (-2) * column_defect(m, 1, 2) + 2 * row_defect(m, 1, 2),
        round_trip_error(m, 2, 2) == (-4) * cofactor_defect(m, 0, 0) + (-4) * cofactor_defect(m,
            1, 1) + (-2) * column_defect(m, 2, 2) + (-2) * row_defect(m, 2, 2),
{
    let s = ONE_SQ as int;
    let (m00, m01, m02) = (m[0][0] as int, m[0][1] as int, m[0][2] as int);
    let (m10, m11, m12) = (m[1][0] as int, m[1][1] as int, m[1][2] as int);
    let (m20, m21, m22) = (m[2][0] as int, m[2][1] as int, m[2][2] as int);
    let r = quaternion_radicand(m);
    let w = quaternion_numerator(m, 0);
    let x = quaternion_numerator(m, 1);
    let y = quaternion_numerator(m, 2);
    let z = quaternion_numerator(m, 3);
    assert(m20 * m01 == m01 * m20) by (nonlinear_arith);
    assert(m20 * m02 == m02 * m20) by (nonlinear_arith);
    assert(m21 * m00 == m00 * m21) by (nonlinear_arith);
    assert(m21 * m02 == m02 * m21) by (nonlinear_arith);
    assert(m22 * m00 == m00 * m22) by (nonlinear_arith);
    assert(m22 * m01 == m01 * m22) by (nonlinear_arith);
    assert(y * y == m12 * m12 + 2 * (m12 * m21) + m21 * m21) by (nonlinear_arith)
        requires
            y == m12 + m21,
    ;
    assert(z * z == s * s - 2 * (s * m00) - 2 * (s * m11) + 2 * (s * m22) + m00 * m00 + 2 * (m00
        * m11) - 2 * (m00 * m22) + m11 * m11 - 2 * (m11 * m22) + m22 * m22) by (nonlinear_arith)
        requires
            z == s + m22 - m00 - m11,
    ;
    assert(x * x == m02 * m02 + 2 * (m02 * m20) + m20 * m20) by (nonlinear_arith)
        requires
            x == m02 + m20,
    ;
    assert(x * y == m02 * m12 + m02 * m21 + m12 * m20 + m20 * m21) by (nonlinear_arith)
        requires
            x == m02 + m20,
            y == m12 + m21,
    ;
    assert(z * w == -(s * m01) + s * m10 + m00 * m01 - m00 * m10 + m01 * m11 - m01 * m22 - m10 *
        m11 + m10 * m22) by (nonlinear_arith)
        requires
            z == s + m22 - m00 - m11,
            w == m10 - m01,
    ;
    assert(x * z == s * m02 + s * m20 - m00 * m02 - m00 * m20 - m02 * m11 + m02 * m22 - m11 *
        m20 + m20 * m22) by (nonlinear_arith)
        requires
            x == m02 + m20,
            z == s + m22 - m00 - m11,
    ;
    assert(y * w == -(m01 * m12) - m01 * m21 + m10 * m12 + m10 * m21) by (nonlinear_arith)
        requires
            y == m12 + m21,
            w == m10 - m01,
    ;
    assert(y * z == s * m12 + s * m21 - m00 * m12 - m00 * m21 - m11 * m12 - m11 * m21 + m12 *
        m22 + m21 * m22) by (nonlinear_arith)
        requires
            y == m12 + m21,
            z == s + m22 - m00 - m11,
    ;
    assert(x * w == -(m01 * m02) - m01 * m20 + m02 * m10 + m10 * m20) by (nonlinear_arith)
        requires
            x == m02 + m20,
            w == m10 - m01,
    ;
    assert(4 * r * m00 == 4 * (s * m00) - 4 * (m00 * m00) - 4 * (m00 * m11) + 4 * (m00 * m22))
        by (nonlinear_arith)
        requires
            r == s + m22 - m00 - m11,
    ;
    assert(4 * r * m01 == 4 * (s * m01) - 4 * (m00 * m01) - 4 * (m01 * m11) + 4 * (m01 * m22))
        by (nonlinear_arith)
        requires
            r == s + m22 - m00 - m11,
    ;
    assert(4 * r * m02 == 4 * (s * m02) - 4 * (m00 * m02) - 4 * (m02 * m11) + 4 * (m02 * m22))
        by (nonlinear_arith)
        requires
            r == s + m22 - m00 - m11,
    ;
    assert(4 * r * m10 == 4 * (s * m10) - 4 * (m00 * m10) - 4 * (m10 * m11) + 4 * (m10 * m22))
        by (nonlinear_arith)
        requires
            r == s + m22 - m00 - m11,
    ;
    assert(4 * r * m11 == 4 * (s * m11) - 4 * (m00 * m11) - 4 * (m11 * m11) + 4 * (m11 * m22))
        by (nonlinear_arith)
        requires
            r == s + m22 - m00 - m11,
    ;
    assert(4 * r * m12 == 4 * (s * m12) - 4 * (m00 * m12) - 4 * (m11 * m12) + 4 * (m12 * m22))
        by (nonlinear_arith)
        requires
            r == s + m22 - m00 - m11,
    ;
    assert(4 * r * m20 == 4 * (s * m20) - 4 * (m00 * m20) - 4 * (m11 * m20) + 4 * (m20 * m22))
        by (nonlinear_arith)
        requires
            r == s + m22 - m00 - m11,
    ;
    assert(4 * r * m21 == 4 * (s * m21) - 4 * (m00 * m21) - 4 * (m11 * m21) + 4 * (m21 * m22))
        by (nonlinear_arith)
        requires
            r == s + m22 - m00 - m11,
    ;
    assert(4 * r * m22 == 4 * (s * m22) - 4 * (m00 * m22) - 4 * (m11 * m22) + 4 * (m22 * m22))
        by (nonlinear_arith)
        requires
            r == s + m22 - m00 - m11,
    ;
}

} // verus!
