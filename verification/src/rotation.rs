//! Rotations in fixed point: quaternion to matrix, matrix to quaternion, and
//! the test that tells a rotation matrix from other numbers.
//!
//! Nothing here is rounded. Quaternion components and entries of a matrix
//! read from the wire carry 14 fractional bits; entries of a rotation matrix
//! in a sample carry 28. The one step that leaves the integers, a square
//! root, is left to the caller: the conversion from a matrix stops at a
//! closed form that names the radicand and the numerators.

use crate::types::{QuaternionRoot, ONE, ONE_SQ};
use vstd::prelude::*;

verus! {

/// Largest magnitude of a matrix entry that `rotation_to_quaternion` accepts.
pub const MAX_ROTATION_ENTRY: i64 = 0x1000_0000_0000_0000;

/// Entry `[r][c]` of the rotation matrix of the quaternion `[w, x, y, z]`
/// (Hamilton convention). The components carry 14 fractional bits, the entry
/// carries 28.
pub open spec fn rotation_entry(w: int, x: int, y: int, z: int, r: int, c: int) -> int {
    if r == 0 && c == 0 {
        ONE_SQ - 2 * (y * y + z * z)
    } else if r == 0 && c == 1 {
        2 * (x * y - z * w)
    } else if r == 0 && c == 2 {
        2 * (x * z + y * w)
    } else if r == 1 && c == 0 {
        2 * (x * y + z * w)
    } else if r == 1 && c == 1 {
        ONE_SQ - 2 * (x * x + z * z)
    } else if r == 1 && c == 2 {
        2 * (y * z - x * w)
    } else if r == 2 && c == 0 {
        2 * (x * z - y * w)
    } else if r == 2 && c == 1 {
        2 * (y * z + x * w)
    } else {
        ONE_SQ - 2 * (x * x + y * y)
    }
}

/// Whether `m` is the rotation matrix of the quaternion `[w, x, y, z]`.
pub open spec fn is_rotation_of(m: [[i64; 3]; 3], w: int, x: int, y: int, z: int) -> bool {
    forall|r: int, c: int|
        0 <= r < 3 && 0 <= c < 3 ==> #[trigger] m[r][c] == rotation_entry(w, x, y, z, r, c)
}

fn product(a: i16, b: i16) -> (p: i64)
    ensures
        p == a * b,
        -0x4000_0000 <= p <= 0x4000_0000,
{
    assert(-0x4000_0000 <= a * b <= 0x4000_0000) by (nonlinear_arith)
        requires
            -32768 <= a <= 32767,
            -32768 <= b <= 32767,
    ;
    (a as i64) * (b as i64)
}

/// Builds the rotation matrix of the quaternion `[w, x, y, z]` by the
/// Hamilton expansion. Nothing is rounded: the components carry 14 fractional
/// bits and the entries 28.
pub fn quaternion_to_rotation(w: i16, x: i16, y: i16, z: i16) -> (m: [[i64; 3]; 3])
    ensures
        is_rotation_of(m, w as int, x as int, y as int, z as int),
        entries_bounded(m),
{
    let xx: i64 = product(x, x);
    let yy: i64 = product(y, y);
    let zz: i64 = product(z, z);
    let xy: i64 = product(x, y);
    let xz: i64 = product(x, z);
    let yz: i64 = product(y, z);
    let xw: i64 = product(x, w);
    let yw: i64 = product(y, w);
    let zw: i64 = product(z, w);
    [
        [ONE_SQ - 2 * (yy + zz), 2 * (xy - zw), 2 * (xz + yw)],
        [2 * (xy + zw), ONE_SQ - 2 * (xx + zz), 2 * (yz - xw)],
        [2 * (xz - yw), 2 * (yz + xw), ONE_SQ - 2 * (xx + yy)],
    ]
}

/// Whether every entry of `m` is within `MAX_ROTATION_ENTRY` of zero, so that
/// sums of four entries fit the machine's integers.
pub open spec fn entries_bounded(m: [[i64; 3]; 3]) -> bool {
    forall|r: int, c: int|
        0 <= r < 3 && 0 <= c < 3 ==> -MAX_ROTATION_ENTRY <= #[trigger] m[r][c]
            <= MAX_ROTATION_ENTRY
}

/// Sum of the diagonal of `m`.
pub open spec fn trace(m: [[i64; 3]; 3]) -> int {
    m[0][0] + m[1][1] + m[2][2]
}

/// The quaternion component that the conversion from a matrix solves for
/// first: `w` (0) when the trace is positive, else the one that belongs to the
/// largest diagonal entry, `x` (1) before `y` (2) before `z` (3).
pub open spec fn quaternion_lead(m: [[i64; 3]; 3]) -> int {
    if trace(m) > 0 {
        0
    } else if m[0][0] > m[1][1] && m[0][0] > m[2][2] {
        1
    } else if m[1][1] > m[2][2] {
        2
    } else {
        3
    }
}

/// The number under the square root in the conversion from a matrix: one plus
/// the diagonal entry of the leading component minus the two others (plus all
/// three when `w` leads).
pub open spec fn quaternion_radicand(m: [[i64; 3]; 3]) -> int {
    let lead = quaternion_lead(m);
    if lead == 0 {
        ONE_SQ + m[0][0] + m[1][1] + m[2][2]
    } else if lead == 1 {
        ONE_SQ + m[0][0] - m[1][1] - m[2][2]
    } else if lead == 2 {
        ONE_SQ + m[1][1] - m[0][0] - m[2][2]
    } else {
        ONE_SQ + m[2][2] - m[0][0] - m[1][1]
    }
}

/// Numerator of component `k` (0 = w, 1 = x, 2 = y, 3 = z) in the conversion
/// from a matrix. The leading component has the radicand; `w` pairs with
/// another component through a difference of two mirrored entries, and two of
/// `x`, `y`, `z` pair through their sum.
pub open spec fn quaternion_numerator(m: [[i64; 3]; 3], k: int) -> int {
    let lead = quaternion_lead(m);
    if k == lead {
        quaternion_radicand(m)
    } else if (lead == 0 && k == 1) || (lead == 1 && k == 0) {
        m[2][1] - m[1][2]
    } else if (lead == 0 && k == 2) || (lead == 2 && k == 0) {
        m[0][2] - m[2][0]
    } else if (lead == 0 && k == 3) || (lead == 3 && k == 0) {
        m[1][0] - m[0][1]
    } else if (lead == 1 && k == 2) || (lead == 2 && k == 1) {
        m[0][1] + m[1][0]
    } else if (lead == 1 && k == 3) || (lead == 3 && k == 1) {
        m[0][2] + m[2][0]
    } else {
        m[1][2] + m[2][1]
    }
}

/// Whether `q` is the closed form of the quaternion of `m`.
pub open spec fn is_quaternion_of(q: QuaternionRoot, m: [[i64; 3]; 3]) -> bool {
    &&& q.lead == quaternion_lead(m)
    &&& q.radicand == quaternion_radicand(m)
    &&& forall|k: int| 0 <= k < 4 ==> #[trigger] q.numerators[k] == quaternion_numerator(m, k)
}

/// Converts a rotation matrix to a quaternion by the trace-dispatched method,
/// up to the square root: the result names the leading component, the
/// radicand and the four numerators, and the quaternion is
/// `numerators / (2 * sqrt(radicand))`. The radicand is at least one, so the
/// root exists and the division is defined.
pub fn rotation_to_quaternion(m: &[[i64; 3]; 3]) -> (q: QuaternionRoot)
    requires
        entries_bounded(*m),
    ensures
        is_quaternion_of(q, *m),
        q.radicand >= ONE_SQ,
        q.numerators[q.lead as int] == q.radicand,
{
    let m00: i64 = m[0][0];
    let m11: i64 = m[1][1];
    let m22: i64 = m[2][2];
    if m00 + m11 + m22 > 0 {
        let radicand: i64 = ONE_SQ + m00 + m11 + m22;
        QuaternionRoot {
            lead: 0,
            radicand,
            numerators: [radicand, m[2][1] - m[1][2], m[0][2] - m[2][0], m[1][0] - m[0][1]],
        }
    } else if m00 > m11 && m00 > m22 {
        let radicand: i64 = ONE_SQ + m00 - m11 - m22;
        QuaternionRoot {
            lead: 1,
            radicand,
            numerators: [m[2][1] - m[1][2], radicand, m[0][1] + m[1][0], m[0][2] + m[2][0]],
        }
    } else if m11 > m22 {
        let radicand: i64 = ONE_SQ + m11 - m00 - m22;
        QuaternionRoot {
            lead: 2,
            radicand,
            numerators: [m[0][2] - m[2][0], m[0][1] + m[1][0], radicand, m[1][2] + m[2][1]],
        }
    } else {
        let radicand: i64 = ONE_SQ + m22 - m00 - m11;
        QuaternionRoot {
            lead: 3,
            radicand,
            numerators: [m[1][0] - m[0][1], m[0][2] + m[2][0], m[1][2] + m[2][1], radicand],
        }
    }
}

/// Dot product of rows `a` and `b` of `m`, with 28 fractional bits.
pub open spec fn row_dot(m: [[i16; 3]; 3], a: int, b: int) -> int {
    m[a][0] * m[b][0] + m[a][1] * m[b][1] + m[a][2] * m[b][2]
}

/// Whether row `r` of `m` has a Euclidean norm between 0.5 and 1.5, which is
/// to say a squared norm between 0.25 and 2.25.
pub open spec fn row_norm_plausible(m: [[i16; 3]; 3], r: int) -> bool {
    0x400_0000 <= row_dot(m, r, r) <= 9 * 0x400_0000
}

/// Whether the dot product of rows `a` and `b` of `m` is below 0.7 in
/// absolute value.
pub open spec fn rows_nearly_orthogonal(m: [[i16; 3]; 3], a: int, b: int) -> bool {
    -7 * ONE_SQ < 10 * row_dot(m, a, b) < 7 * ONE_SQ
}

/// The plausibility test for a matrix read from the wire: every row has a
/// norm between 0.5 and 1.5 and every two rows have a dot product below 0.7 in
/// absolute value.
pub open spec fn plausible_rotation(m: [[i16; 3]; 3]) -> bool {
    &&& row_norm_plausible(m, 0)
    &&& row_norm_plausible(m, 1)
    &&& row_norm_plausible(m, 2)
    &&& rows_nearly_orthogonal(m, 0, 1)
    &&& rows_nearly_orthogonal(m, 0, 2)
    &&& rows_nearly_orthogonal(m, 1, 2)
}

fn dot(m: &[[i16; 3]; 3], a: usize, b: usize) -> (d: i64)
    requires
        a < 3,
        b < 3,
    ensures
        d == row_dot(*m, a as int, b as int),
        -0xC000_0000 <= d <= 0xC000_0000,
{
    product(m[a][0], m[b][0]) + product(m[a][1], m[b][1]) + product(m[a][2], m[b][2])
}

/// Decides whether nine numbers read from the wire look like a rotation
/// matrix.
pub fn is_plausible_rotation_matrix(m: &[[i16; 3]; 3]) -> (ok: bool)
    ensures
        ok == plausible_rotation(*m),
{
    let n0: i64 = dot(m, 0, 0);
    let n1: i64 = dot(m, 1, 1);
    let n2: i64 = dot(m, 2, 2);
    if n0 < 0x400_0000 || n0 > 9 * 0x400_0000 || n1 < 0x400_0000 || n1 > 9 * 0x400_0000 || n2
        < 0x400_0000 || n2 > 9 * 0x400_0000 {
        return false;
    }
    let d01: i64 = 10 * dot(m, 0, 1);
    let d02: i64 = 10 * dot(m, 0, 2);
    let d12: i64 = 10 * dot(m, 1, 2);
    let limit: i64 = 7 * ONE_SQ;
    -limit < d01 && d01 < limit && -limit < d02 && d02 < limit && -limit < d12 && d12 < limit
}

/// The matrix `m` rescaled from 14 to 28 fractional bits.
pub open spec fn is_widened(wide: [[i64; 3]; 3], m: [[i16; 3]; 3]) -> bool {
    forall|r: int, c: int| 0 <= r < 3 && 0 <= c < 3 ==> #[trigger] wide[r][c] == m[r][c] * ONE
}

fn widen(v: i16) -> (w: i64)
    ensures
        w == v * ONE,
        -MAX_ROTATION_ENTRY <= w <= MAX_ROTATION_ENTRY,
{
    let w: i64 = (v as i64) * 16384;
    assert(w == v * ONE);
    w
}

/// Rescales a matrix read from the wire to 28 fractional bits, the scale of
/// every rotation matrix in a sample.
pub fn widen_rotation_matrix(m: &[[i16; 3]; 3]) -> (wide: [[i64; 3]; 3])
    ensures
        is_widened(wide, *m),
        entries_bounded(wide),
{
    [
        [widen(m[0][0]), widen(m[0][1]), widen(m[0][2])],
        [widen(m[1][0]), widen(m[1][1]), widen(m[1][2])],
        [widen(m[2][0]), widen(m[2][1]), widen(m[2][2])],
    ]
}

/// Component `k` of the quaternion `[w, x, y, z]`.
pub open spec fn component(w: int, x: int, y: int, z: int, k: int) -> int {
    if k == 0 {
        w
    } else if k == 1 {
        x
    } else if k == 2 {
        y
    } else {
        z
    }
}

/// Sum of the squares of the four numerators of the quaternion of `m`.
pub open spec fn numerators_norm_sq(m: [[i64; 3]; 3]) -> int {
    quaternion_numerator(m, 0) * quaternion_numerator(m, 0) + quaternion_numerator(m, 1)
        * quaternion_numerator(m, 1) + quaternion_numerator(m, 2) * quaternion_numerator(m, 2)
        + quaternion_numerator(m, 3) * quaternion_numerator(m, 3)
}

/// Quaternion to matrix and back gives the same quaternion up to its sign.
///
/// Let `m` be the rotation matrix of the unit quaternion `[w, x, y, z]`, and
/// let `c` be the component that the conversion back picks as leading. Then
/// the radicand is `4 * c * c` and the numerator of each component `k` is
/// `4 * c` times that component. The quaternion that the closed form stands
/// for, `numerators / (2 * sqrt(radicand))`, is therefore `[w, x, y, z]`
/// itself where `c` is positive and its negation where `c` is negative; `c`
/// is never zero. Its magnitude is exactly one: the squares of the numerators
/// add up to four times the radicand.
pub proof fn lemma_quaternion_round_trip(m: [[i64; 3]; 3], w: i16, x: i16, y: i16, z: i16)
    requires
        is_rotation_of(m, w as int, x as int, y as int, z as int),
        w * w + x * x + y * y + z * z == ONE_SQ,
    ensures
        ({
            let c = component(w as int, x as int, y as int, z as int, quaternion_lead(m));
            &&& c != 0
            &&& quaternion_radicand(m) == 4 * c * c
            &&& forall|k: int|
                0 <= k < 4 ==> #[trigger] quaternion_numerator(m, k) == 4 * c * component(
                    w as int,
                    x as int,
                    y as int,
                    z as int,
                    k,
                )
        }),
        numerators_norm_sq(m) == 4 * quaternion_radicand(m) * ONE_SQ,
{
    let (wi, xi, yi, zi) = (w as int, x as int, y as int, z as int);
    assert(m[0][0] == rotation_entry(wi, xi, yi, zi, 0, 0));
    assert(m[0][1] == rotation_entry(wi, xi, yi, zi, 0, 1));
    assert(m[0][2] == rotation_entry(wi, xi, yi, zi, 0, 2));
    assert(m[1][0] == rotation_entry(wi, xi, yi, zi, 1, 0));
    assert(m[1][1] == rotation_entry(wi, xi, yi, zi, 1, 1));
    assert(m[1][2] == rotation_entry(wi, xi, yi, zi, 1, 2));
    assert(m[2][0] == rotation_entry(wi, xi, yi, zi, 2, 0));
    assert(m[2][1] == rotation_entry(wi, xi, yi, zi, 2, 1));
    assert(m[2][2] == rotation_entry(wi, xi, yi, zi, 2, 2));
    let lead = quaternion_lead(m);
    let c = component(wi, xi, yi, zi, lead);
    assert(quaternion_radicand(m) == 4 * (c * c));
    assert(4 * c * c == 4 * (c * c)) by (nonlinear_arith);
    lemma_radicand_at_least_one(m);
    assert(c != 0) by (nonlinear_arith)
        requires
            4 * (c * c) >= 1,
    ;
    assert(wi * xi == xi * wi && wi * yi == yi * wi && wi * zi == zi * wi) by (nonlinear_arith);
    assert(xi * yi == yi * xi && xi * zi == zi * xi && yi * zi == zi * yi) by (nonlinear_arith);
    assert forall|k: int| 0 <= k < 4 implies #[trigger] quaternion_numerator(m, k) == 4 * c
        * component(wi, xi, yi, zi, k) by {
        let d = component(wi, xi, yi, zi, k);
        assert(quaternion_numerator(m, k) == 4 * (c * d));
        assert(4 * c * d == 4 * (c * d)) by (nonlinear_arith);
    }
    let n0 = quaternion_numerator(m, 0);
    let n1 = quaternion_numerator(m, 1);
    let n2 = quaternion_numerator(m, 2);
    let n3 = quaternion_numerator(m, 3);
    let r = quaternion_radicand(m);
    assert(n0 == 4 * (c * wi) && n1 == 4 * (c * xi) && n2 == 4 * (c * yi) && n3 == 4 * (c * zi));
    let cc = c * c;
    lemma_scaled_square(c, wi);
    lemma_scaled_square(c, xi);
    lemma_scaled_square(c, yi);
    lemma_scaled_square(c, zi);
    assert(cc * (wi * wi) + cc * (xi * xi) + cc * (yi * yi) + cc * (zi * zi) == cc * (wi * wi
        + xi * xi + yi * yi + zi * zi)) by (nonlinear_arith);
    assert(4 * r * ONE_SQ == 16 * (cc * ONE_SQ)) by (nonlinear_arith)
        requires
            r == 4 * cc,
    ;
}

/// Entry `[r][c]` of the rotation matrix of the quaternion that `m`
/// determines, multiplied by four times the radicand. With the quaternion
/// being `numerators / (2 * sqrt(radicand))`, the Hamilton expansion of its
/// matrix has nothing but products of two numerators over four times the
/// radicand, so that this multiple is an integer.
pub open spec fn recovered_entry(m: [[i64; 3]; 3], r: int, c: int) -> int {
    let w = quaternion_numerator(m, 0);
    let x = quaternion_numerator(m, 1);
    let y = quaternion_numerator(m, 2);
    let z = quaternion_numerator(m, 3);
    let one = 4 * quaternion_radicand(m) * ONE_SQ;
    if r == 0 && c == 0 {
        one - 2 * (y * y + z * z)
    } else if r == 0 && c == 1 {
        2 * (x * y - z * w)
    } else if r == 0 && c == 2 {
        2 * (x * z + y * w)
    } else if r == 1 && c == 0 {
        2 * (x * y + z * w)
    } else if r == 1 && c == 1 {
        one - 2 * (x * x + z * z)
    } else if r == 1 && c == 2 {
        2 * (y * z - x * w)
    } else if r == 2 && c == 0 {
        2 * (x * z - y * w)
    } else if r == 2 && c == 1 {
        2 * (y * z + x * w)
    } else {
        one - 2 * (x * x + y * y)
    }
}

/// Matrix to quaternion and back gives the same matrix, for every matrix
/// that is the rotation matrix of a unit quaternion: each entry of the
/// matrix of the recovered quaternion equals the entry of `m`. Both sides are
/// stated multiplied by four times the radicand, which is positive.
pub proof fn lemma_matrix_round_trip(m: [[i64; 3]; 3], w: i16, x: i16, y: i16, z: i16)
    requires
        is_rotation_of(m, w as int, x as int, y as int, z as int),
        w * w + x * x + y * y + z * z == ONE_SQ,
    ensures
        quaternion_radicand(m) > 0,
        forall|r: int, c: int|
            0 <= r < 3 && 0 <= c < 3 ==> recovered_entry(m, r, c) == 4 * quaternion_radicand(m)
                * #[trigger] m[r][c],
{
    lemma_quaternion_round_trip(m, w, x, y, z);
    lemma_radicand_at_least_one(m);
    let (wi, xi, yi, zi) = (w as int, x as int, y as int, z as int);
    let k = component(wi, xi, yi, zi, quaternion_lead(m));
    let rad = quaternion_radicand(m);
    let nw = quaternion_numerator(m, 0);
    let nx = quaternion_numerator(m, 1);
    let ny = quaternion_numerator(m, 2);
    let nz = quaternion_numerator(m, 3);
    assert(nw == 4 * k * wi && nx == 4 * k * xi && ny == 4 * k * yi && nz == 4 * k * zi);
    assert(rad == 4 * k * k);
    assert(m[0][0] == rotation_entry(wi, xi, yi, zi, 0, 0));
    assert(m[0][1] == rotation_entry(wi, xi, yi, zi, 0, 1));
    assert(m[0][2] == rotation_entry(wi, xi, yi, zi, 0, 2));
    assert(m[1][0] == rotation_entry(wi, xi, yi, zi, 1, 0));
    assert(m[1][1] == rotation_entry(wi, xi, yi, zi, 1, 1));
    assert(m[1][2] == rotation_entry(wi, xi, yi, zi, 1, 2));
    assert(m[2][0] == rotation_entry(wi, xi, yi, zi, 2, 0));
    assert(m[2][1] == rotation_entry(wi, xi, yi, zi, 2, 1));
    assert(m[2][2] == rotation_entry(wi, xi, yi, zi, 2, 2));
    lemma_recovered_diagonal(k, rad, ny, nz, yi, zi, m[0][0] as int);
    lemma_recovered_diagonal(k, rad, nx, nz, xi, zi, m[1][1] as int);
    lemma_recovered_diagonal(k, rad, nx, ny, xi, yi, m[2][2] as int);
    lemma_recovered_pair(k, rad, nx, ny, nz, nw, xi, yi, zi, wi, m[0][1] as int, m[1][0] as int);
    lemma_recovered_pair(k, rad, nx, nz, ny, nw, xi, zi, yi, wi, m[2][0] as int, m[0][2] as int);
    lemma_recovered_pair(k, rad, ny, nz, nx, nw, yi, zi, xi, wi, m[1][2] as int, m[2][1] as int);
    assert forall|r: int, c: int| 0 <= r < 3 && 0 <= c < 3 implies recovered_entry(m, r, c) == 4
        * quaternion_radicand(m) * #[trigger] m[r][c] by {
        assert(nx * ny == ny * nx && nx * nz == nz * nx && ny * nz == nz * ny) by (nonlinear_arith);
        assert(nz * nw == nw * nz && ny * nw == nw * ny && nx * nw == nw * nx) by (nonlinear_arith);
    }
}

proof fn lemma_recovered_diagonal(k: int, rad: int, na: int, nb: int, a: int, b: int, entry: int)
    by (nonlinear_arith)
    requires
        na == 4 * k * a,
        nb == 4 * k * b,
        rad == 4 * k * k,
        entry == ONE_SQ - 2 * (a * a + b * b),
    ensures
        4 * rad * ONE_SQ - 2 * (na * na + nb * nb) == 4 * rad * entry,
{
}

proof fn lemma_recovered_pair(
    k: int,
    rad: int,
    na: int,
    nb: int,
    nc: int,
    nd: int,
    a: int,
    b: int,
    c: int,
    d: int,
    minus: int,
    plus: int,
)
    requires
        na == 4 * k * a,
        nb == 4 * k * b,
        nc == 4 * k * c,
        nd == 4 * k * d,
        rad == 4 * k * k,
        minus == 2 * (a * b - c * d),
        plus == 2 * (a * b + c * d),
    ensures
        2 * (na * nb - nc * nd) == 4 * rad * minus,
        2 * (na * nb + nc * nd) == 4 * rad * plus,
{
    let kk = k * k;
    let p = a * b;
    let q = c * d;
    lemma_scaled_product(k, a, b);
    lemma_scaled_product(k, c, d);
    assert(4 * k * k == 4 * kk) by (nonlinear_arith)
        requires
            kk == k * k,
    ;
    assert(na * nb == 16 * (kk * p));
    assert(nc * nd == 16 * (kk * q));
    assert(kk * (p - q) == kk * p - kk * q) by (nonlinear_arith);
    assert(kk * (p + q) == kk * p + kk * q) by (nonlinear_arith);
    assert(4 * rad * minus == 32 * (kk * (p - q))) by (nonlinear_arith)
        requires
            rad == 4 * kk,
            minus == 2 * (p - q),
    ;
    assert(4 * rad * plus == 32 * (kk * (p + q))) by (nonlinear_arith)
        requires
            rad == 4 * kk,
            plus == 2 * (p + q),
    ;
}

proof fn lemma_scaled_product(k: int, a: int, b: int)
    ensures
        (4 * k * a) * (4 * k * b) == 16 * ((k * k) * (a * b)),
{
    assert((4 * k * a) * (4 * k * b) == 16 * ((k * k) * (a * b))) by (nonlinear_arith);
}

proof fn lemma_scaled_square(c: int, q: int)
    ensures
        (4 * (c * q)) * (4 * (c * q)) == 16 * ((c * c) * (q * q)),
{
    assert((4 * (c * q)) * (4 * (c * q)) == 16 * ((c * c) * (q * q))) by (nonlinear_arith);
}

/// The radicand of the conversion from a matrix is at least one, whatever the
/// matrix: when the trace is not positive, the largest diagonal entry
/// outweighs the two others.
pub proof fn lemma_radicand_at_least_one(m: [[i64; 3]; 3])
    ensures
        quaternion_radicand(m) >= ONE_SQ,
{
}

} // verus!
