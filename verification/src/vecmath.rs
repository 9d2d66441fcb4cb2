//! Fixed-point vectors, quaternions and matrices for the camera transforms.
//!
//! Rotations are carried as quaternions that are kept within
//! [`QUAT_BAND`] of unit length; matrices are row-major with the
//! translation in the last column and are only ever used as affine maps.

use vstd::prelude::*;

use crate::fixed::{
    fx_mul, fx_mul_v, isqrt, isqrt_v, lemma_fx_mul_bound, lemma_tdiv_mono_abs, tdiv, FX_ONE,
    FX_ONE_SQ,
};

verus! {

/// A pointer position or other 2D quantity, in raw fixed-point units.
#[derive(Clone, Copy, Debug, PartialEq, Eq, Structural)]
pub struct Vec2Fx {
    pub x: i64,
    pub y: i64,
}

/// A 3D point or vector, in raw fixed-point units.
#[derive(Clone, Copy, Debug, PartialEq, Eq, Structural)]
pub struct Vec3Fx {
    pub x: i64,
    pub y: i64,
    pub z: i64,
}

/// A rotation quaternion `x*i + y*j + z*k + w`.
#[derive(Clone, Copy, Debug, PartialEq, Eq, Structural)]
pub struct QuatFx {
    pub x: i64,
    pub y: i64,
    pub z: i64,
    pub w: i64,
}

/// A 3x3 rotation matrix, row-major.
#[derive(Clone, Copy, Debug, PartialEq, Eq, Structural)]
pub struct Mat3Fx {
    pub m00: i64,
    pub m01: i64,
    pub m02: i64,
    pub m10: i64,
    pub m11: i64,
    pub m12: i64,
    pub m20: i64,
    pub m21: i64,
    pub m22: i64,
}

/// A 4x4 transform, row-major; row 3 is always `(0, 0, 0, FX_ONE)` here.
#[derive(Clone, Copy, Debug, PartialEq, Eq, Structural)]
pub struct Mat4Fx {
    pub m00: i64,
    pub m01: i64,
    pub m02: i64,
    pub m03: i64,
    pub m10: i64,
    pub m11: i64,
    pub m12: i64,
    pub m13: i64,
    pub m20: i64,
    pub m21: i64,
    pub m22: i64,
    pub m23: i64,
    pub m30: i64,
    pub m31: i64,
    pub m32: i64,
    pub m33: i64,
}

/// How far the squared norm of a camera quaternion may drift from one,
/// in raw squared units.  The band is exactly what keeps the norm
/// itself within `1e-5` of one: see [`lemma_band_norm_within_tolerance`].
pub const QUAT_BAND: i64 = 19_999_900;

/// Largest quaternion component admitted by the product below.
pub const QMUL_IN_MAX: i64 = 1_000_000_000_000;

/// Largest component a quaternion product can then reach.
pub const QMUL_OUT_MAX: i64 = 4_000_000_000_000_000_000;

/// Largest magnitude of an entry of a rotation matrix built from a
/// near-unit quaternion.
pub const ROT_MAX: i64 = 4_100_000;

/// Largest vector component accepted by the inverse-rotation application.
pub const ROT_APPLY_IN_MAX: i64 = 700_000_000_000_000_000;

/// Largest vector component an inverse-rotation application can produce.
pub const ROT_APPLY_OUT_MAX: i64 = 8_700_000_000_000_000_000;

/// Squared norm of a quaternion, in raw squared units.
pub open spec fn quat_norm_sq(q: QuatFx) -> int {
    q.x * q.x + q.y * q.y + q.z * q.z + q.w * q.w
}

/// The quaternion is within the admitted drift band around unit length.
pub open spec fn quat_in_band(q: QuatFx) -> bool {
    -(QUAT_BAND as int) <= quat_norm_sq(q) - FX_ONE_SQ as int <= QUAT_BAND as int
}

/// The identity rotation.
pub open spec fn quat_identity_v() -> QuatFx {
    QuatFx { x: 0, y: 0, z: 0, w: FX_ONE }
}

/// The identity rotation, executable form.
pub fn quat_identity() -> (r: QuatFx)
    ensures
        r == quat_identity_v(),
{
    QuatFx { x: 0, y: 0, z: 0, w: FX_ONE }
}

/// Within the band, the quaternion's length is within `1e-5` of one:
/// its squared norm lies between `(1 - 1e-5)^2` and `(1 + 1e-5)^2`,
/// here in raw squared units where one is `1e12`.
pub proof fn lemma_band_norm_within_tolerance(q: QuatFx)
    requires
        quat_in_band(q),
    ensures
        999_990 * 999_990 <= quat_norm_sq(q),
        quat_norm_sq(q) <= 1_000_010 * 1_000_010,
{
}

/// Components of a near-unit quaternion are themselves nearly unit.
pub proof fn lemma_band_comp_bound(q: QuatFx)
    requires
        quat_in_band(q),
    ensures
        -1_000_010 <= q.x <= 1_000_010,
        -1_000_010 <= q.y <= 1_000_010,
        -1_000_010 <= q.z <= 1_000_010,
        -1_000_010 <= q.w <= 1_000_010,
{
    assert(-1_000_010 <= q.x <= 1_000_010 && -1_000_010 <= q.y <= 1_000_010 && -1_000_010 <= q.z
        <= 1_000_010 && -1_000_010 <= q.w <= 1_000_010) by (nonlinear_arith)
        requires
            q.x * q.x + q.y * q.y + q.z * q.z + q.w * q.w <= 1_000_020_000_000,
    ;
}

/// The `i` component of the Hamilton product `a * b`, before narrowing.
pub open spec fn qmul_x_v(a: QuatFx, b: QuatFx) -> int {
    fx_mul_v(a.w as int, b.x as int) + fx_mul_v(a.x as int, b.w as int) + fx_mul_v(
        a.y as int,
        b.z as int,
    ) - fx_mul_v(a.z as int, b.y as int)
}

/// The `j` component of the Hamilton product `a * b`, before narrowing.
pub open spec fn qmul_y_v(a: QuatFx, b: QuatFx) -> int {
    fx_mul_v(a.w as int, b.y as int) - fx_mul_v(a.x as int, b.z as int) + fx_mul_v(
        a.y as int,
        b.w as int,
    ) + fx_mul_v(a.z as int, b.x as int)
}

/// The `k` component of the Hamilton product `a * b`, before narrowing.
pub open spec fn qmul_z_v(a: QuatFx, b: QuatFx) -> int {
    fx_mul_v(a.w as int, b.z as int) + fx_mul_v(a.x as int, b.y as int) - fx_mul_v(
        a.y as int,
        b.x as int,
    ) + fx_mul_v(a.z as int, b.w as int)
}

/// The real component of the Hamilton product `a * b`, before narrowing.
pub open spec fn qmul_w_v(a: QuatFx, b: QuatFx) -> int {
    fx_mul_v(a.w as int, b.w as int) - fx_mul_v(a.x as int, b.x as int) - fx_mul_v(
        a.y as int,
        b.y as int,
    ) - fx_mul_v(a.z as int, b.z as int)
}

/// The Hamilton product `a * b` as a quaternion value.
pub open spec fn spec_quat_mul(a: QuatFx, b: QuatFx) -> QuatFx {
    QuatFx {
        x: qmul_x_v(a, b) as i64,
        y: qmul_y_v(a, b) as i64,
        z: qmul_z_v(a, b) as i64,
        w: qmul_w_v(a, b) as i64,
    }
}

/// One fixed-point term of a quaternion product, with its bound.
fn qterm(a: i64, b: i64) -> (r: i64)
    requires
        -QMUL_IN_MAX <= a <= QMUL_IN_MAX,
        -QMUL_IN_MAX <= b <= QMUL_IN_MAX,
    ensures
        r as int == fx_mul_v(a as int, b as int),
        -1_000_000_000_000_000_000 <= r <= 1_000_000_000_000_000_000,
{
    proof {
        lemma_fx_mul_bound(a as int, b as int, QMUL_IN_MAX as int, QMUL_IN_MAX as int);
    }
    fx_mul(a, b)
}

/// Hamilton product of two quaternions (left operand applied second).
pub fn quat_mul(a: &QuatFx, b: &QuatFx) -> (r: QuatFx)
    requires
        -QMUL_IN_MAX <= a.x <= QMUL_IN_MAX,
        -QMUL_IN_MAX <= a.y <= QMUL_IN_MAX,
        -QMUL_IN_MAX <= a.z <= QMUL_IN_MAX,
        -QMUL_IN_MAX <= a.w <= QMUL_IN_MAX,
        -QMUL_IN_MAX <= b.x <= QMUL_IN_MAX,
        -QMUL_IN_MAX <= b.y <= QMUL_IN_MAX,
        -QMUL_IN_MAX <= b.z <= QMUL_IN_MAX,
        -QMUL_IN_MAX <= b.w <= QMUL_IN_MAX,
    ensures
        r == spec_quat_mul(*a, *b),
        r.x as int == qmul_x_v(*a, *b),
        r.y as int == qmul_y_v(*a, *b),
        r.z as int == qmul_z_v(*a, *b),
        r.w as int == qmul_w_v(*a, *b),
        -QMUL_OUT_MAX <= r.x <= QMUL_OUT_MAX,
        -QMUL_OUT_MAX <= r.y <= QMUL_OUT_MAX,
        -QMUL_OUT_MAX <= r.z <= QMUL_OUT_MAX,
        -QMUL_OUT_MAX <= r.w <= QMUL_OUT_MAX,
{
    let x: i64 = qterm(a.w, b.x) + qterm(a.x, b.w) + qterm(a.y, b.z) - qterm(a.z, b.y);
    let y: i64 = qterm(a.w, b.y) - qterm(a.x, b.z) + qterm(a.y, b.w) + qterm(a.z, b.x);
    let z: i64 = qterm(a.w, b.z) + qterm(a.x, b.y) - qterm(a.y, b.x) + qterm(a.z, b.w);
    let w: i64 = qterm(a.w, b.w) - qterm(a.x, b.x) - qterm(a.y, b.y) - qterm(a.z, b.z);
    QuatFx { x, y, z, w }
}

/// Renormalization of a quaternion: each component is divided by the
/// integer square root of the squared norm.  A zero quaternion, or a
/// result that still falls outside the drift band (impossible for inputs
/// anywhere near unit length, but not proved here), falls back to the
/// identity, so the result is always within the band.
pub open spec fn spec_quat_renorm(q: QuatFx) -> QuatFx {
    let s = quat_norm_sq(q);
    if s == 0 {
        quat_identity_v()
    } else {
        let n = isqrt_v(s);
        let c = QuatFx {
            x: tdiv(q.x * (FX_ONE as int), n) as i64,
            y: tdiv(q.y * (FX_ONE as int), n) as i64,
            z: tdiv(q.z * (FX_ONE as int), n) as i64,
            w: tdiv(q.w * (FX_ONE as int), n) as i64,
        };
        if quat_in_band(c) {
            c
        } else {
            quat_identity_v()
        }
    }
}

/// Renormalize a quaternion toward unit length.
#[verifier::rlimit(30)]
pub fn quat_renormalize(q: &QuatFx) -> (r: QuatFx)
    requires
        -QMUL_OUT_MAX <= q.x <= QMUL_OUT_MAX,
        -QMUL_OUT_MAX <= q.y <= QMUL_OUT_MAX,
        -QMUL_OUT_MAX <= q.z <= QMUL_OUT_MAX,
        -QMUL_OUT_MAX <= q.w <= QMUL_OUT_MAX,
    ensures
        r == spec_quat_renorm(*q),
        quat_in_band(r),
{
    proof {
        assert((q.x as int) * (q.x as int) <= (QMUL_OUT_MAX as int) * (QMUL_OUT_MAX as int)
            && (q.y as int) * (q.y as int) <= (QMUL_OUT_MAX as int) * (QMUL_OUT_MAX as int)
            && (q.z as int) * (q.z as int) <= (QMUL_OUT_MAX as int) * (QMUL_OUT_MAX as int)
            && (q.w as int) * (q.w as int) <= (QMUL_OUT_MAX as int) * (QMUL_OUT_MAX as int)
            && 0 <= (q.x as int) * (q.x as int) && 0 <= (q.y as int) * (q.y as int) && 0 <= (
        q.z as int) * (q.z as int) && 0 <= (q.w as int) * (q.w as int)) by (nonlinear_arith)
            requires
                -QMUL_OUT_MAX as int <= q.x as int <= QMUL_OUT_MAX as int,
                -QMUL_OUT_MAX as int <= q.y as int <= QMUL_OUT_MAX as int,
                -QMUL_OUT_MAX as int <= q.z as int <= QMUL_OUT_MAX as int,
                -QMUL_OUT_MAX as int <= q.w as int <= QMUL_OUT_MAX as int,
        ;
    }
    let s: i128 = (q.x as i128) * (q.x as i128) + (q.y as i128) * (q.y as i128) + (q.z as i128) * (
    q.z as i128) + (q.w as i128) * (q.w as i128);
    if s == 0 {
        return quat_identity();
    }
    let n_wide: u128 = isqrt(s as u128);
    let n: i128 = n_wide as i128;
    proof {
        assert(n >= 1 && n as int == isqrt_v(s as int)) by {
            assert((n_wide as int) * (n_wide as int) <= s as int);
            assert((s as int) < ((n_wide as int) + 1) * ((n_wide as int) + 1));
            if n_wide == 0 {
                assert((s as int) < 1) by (nonlinear_arith)
                    requires
                        n_wide as int == 0,
                        (s as int) < ((n_wide as int) + 1) * ((n_wide as int) + 1),
                ;
            }
        }
        // Each component's square is at most the squared norm, so each
        // component's magnitude is at most the norm.
        assert(-(n as int) <= q.x as int <= n as int && -(n as int) <= q.y as int <= n as int && -(
        n as int) <= q.z as int <= n as int && -(n as int) <= q.w as int <= n as int)
            by (nonlinear_arith)
            requires
                0 <= n as int,
                (s as int) < ((n as int) + 1) * ((n as int) + 1),
                s as int == (q.x as int) * (q.x as int) + (q.y as int) * (q.y as int) + (
                q.z as int) * (q.z as int) + (q.w as int) * (q.w as int),
        ;
        lemma_tdiv_mono_abs((q.x as int) * (FX_ONE as int), (n as int) * (FX_ONE as int), n as int);
        lemma_tdiv_mono_abs((q.y as int) * (FX_ONE as int), (n as int) * (FX_ONE as int), n as int);
        lemma_tdiv_mono_abs((q.z as int) * (FX_ONE as int), (n as int) * (FX_ONE as int), n as int);
        lemma_tdiv_mono_abs((q.w as int) * (FX_ONE as int), (n as int) * (FX_ONE as int), n as int);
        assert((q.x as int) * (FX_ONE as int) <= (n as int) * (FX_ONE as int) && -((n as int) * (
        FX_ONE as int)) <= (q.x as int) * (FX_ONE as int)) by (nonlinear_arith)
            requires
                -(n as int) <= q.x as int <= n as int,
        ;
        assert((q.y as int) * (FX_ONE as int) <= (n as int) * (FX_ONE as int) && -((n as int) * (
        FX_ONE as int)) <= (q.y as int) * (FX_ONE as int)) by (nonlinear_arith)
            requires
                -(n as int) <= q.y as int <= n as int,
        ;
        assert((q.z as int) * (FX_ONE as int) <= (n as int) * (FX_ONE as int) && -((n as int) * (
        FX_ONE as int)) <= (q.z as int) * (FX_ONE as int)) by (nonlinear_arith)
            requires
                -(n as int) <= q.z as int <= n as int,
        ;
        assert((q.w as int) * (FX_ONE as int) <= (n as int) * (FX_ONE as int) && -((n as int) * (
        FX_ONE as int)) <= (q.w as int) * (FX_ONE as int)) by (nonlinear_arith)
            requires
                -(n as int) <= q.w as int <= n as int,
        ;
        vstd::arithmetic::div_mod::lemma_div_multiples_vanish(FX_ONE as int, n as int);
        assert((n as int) * (FX_ONE as int) == (FX_ONE as int) * (n as int)) by (nonlinear_arith);
        assert(tdiv((n as int) * (FX_ONE as int), n as int) == FX_ONE as int);
    }
    let cx: i128 = ((q.x as i128) * (FX_ONE as i128)) / n;
    let cy: i128 = ((q.y as i128) * (FX_ONE as i128)) / n;
    let cz: i128 = ((q.z as i128) * (FX_ONE as i128)) / n;
    let cw: i128 = ((q.w as i128) * (FX_ONE as i128)) / n;
    proof {
        assert(0 <= (cx as int) * (cx as int) <= 1_000_000_000_000 && 0 <= (cy as int) * (
        cy as int) <= 1_000_000_000_000 && 0 <= (cz as int) * (cz as int) <= 1_000_000_000_000 && 0
            <= (cw as int) * (cw as int) <= 1_000_000_000_000) by (nonlinear_arith)
            requires
                -1_000_000 <= cx as int <= 1_000_000,
                -1_000_000 <= cy as int <= 1_000_000,
                -1_000_000 <= cz as int <= 1_000_000,
                -1_000_000 <= cw as int <= 1_000_000,
        ;
    }
    let s2: i128 = cx * cx + cy * cy + cz * cz + cw * cw;
    let dlt: i128 = s2 - (FX_ONE_SQ as i128);
    if -(QUAT_BAND as i128) <= dlt && dlt <= QUAT_BAND as i128 {
        QuatFx { x: cx as i64, y: cy as i64, z: cz as i64, w: cw as i64 }
    } else {
        quat_identity()
    }
}

/// Renormalization always lands in the unit band: a result outside it
/// (or a zero input) falls back to the identity, which is exactly unit.
pub proof fn lemma_renorm_in_band(q: QuatFx)
    ensures
        quat_in_band(spec_quat_renorm(q)),
{
    assert(quat_in_band(quat_identity_v())) by {
        assert(quat_norm_sq(quat_identity_v()) == 1_000_000_000_000);
    }
}

/// Entry (0,0) of the rotation matrix of a near-unit quaternion.
pub open spec fn rm00_v(q: QuatFx) -> int {
    FX_ONE as int - 2 * fx_mul_v(q.y as int, q.y as int) - 2 * fx_mul_v(q.z as int, q.z as int)
}

pub open spec fn rm01_v(q: QuatFx) -> int {
    2 * (fx_mul_v(q.x as int, q.y as int) - fx_mul_v(q.z as int, q.w as int))
}

pub open spec fn rm02_v(q: QuatFx) -> int {
    2 * (fx_mul_v(q.x as int, q.z as int) + fx_mul_v(q.y as int, q.w as int))
}

pub open spec fn rm10_v(q: QuatFx) -> int {
    2 * (fx_mul_v(q.x as int, q.y as int) + fx_mul_v(q.z as int, q.w as int))
}

pub open spec fn rm11_v(q: QuatFx) -> int {
    FX_ONE as int - 2 * fx_mul_v(q.x as int, q.x as int) - 2 * fx_mul_v(q.z as int, q.z as int)
}

pub open spec fn rm12_v(q: QuatFx) -> int {
    2 * (fx_mul_v(q.y as int, q.z as int) - fx_mul_v(q.x as int, q.w as int))
}

pub open spec fn rm20_v(q: QuatFx) -> int {
    2 * (fx_mul_v(q.x as int, q.z as int) - fx_mul_v(q.y as int, q.w as int))
}

pub open spec fn rm21_v(q: QuatFx) -> int {
    2 * (fx_mul_v(q.y as int, q.z as int) + fx_mul_v(q.x as int, q.w as int))
}

pub open spec fn rm22_v(q: QuatFx) -> int {
    FX_ONE as int - 2 * fx_mul_v(q.x as int, q.x as int) - 2 * fx_mul_v(q.y as int, q.y as int)
}

/// The rotation matrix of a near-unit quaternion as a value.
pub open spec fn spec_quat_to_mat3(q: QuatFx) -> Mat3Fx {
    Mat3Fx {
        m00: rm00_v(q) as i64,
        m01: rm01_v(q) as i64,
        m02: rm02_v(q) as i64,
        m10: rm10_v(q) as i64,
        m11: rm11_v(q) as i64,
        m12: rm12_v(q) as i64,
        m20: rm20_v(q) as i64,
        m21: rm21_v(q) as i64,
        m22: rm22_v(q) as i64,
    }
}

/// One fixed-point square-ish term of the rotation matrix, with its bound.
fn rterm(a: i64, b: i64) -> (r: i64)
    requires
        -1_000_010 <= a <= 1_000_010,
        -1_000_010 <= b <= 1_000_010,
    ensures
        r as int == fx_mul_v(a as int, b as int),
        -1_000_021 <= r <= 1_000_021,
{
    proof {
        lemma_fx_mul_bound(a as int, b as int, 1_000_010, 1_000_010);
    }
    fx_mul(a, b)
}

/// Build the rotation matrix of a near-unit quaternion.
pub fn quat_to_mat3(q: &QuatFx) -> (m: Mat3Fx)
    requires
        quat_in_band(*q),
    ensures
        m == spec_quat_to_mat3(*q),
        m.m00 as int == rm00_v(*q),
        m.m01 as int == rm01_v(*q),
        m.m02 as int == rm02_v(*q),
        m.m10 as int == rm10_v(*q),
        m.m11 as int == rm11_v(*q),
        m.m12 as int == rm12_v(*q),
        m.m20 as int == rm20_v(*q),
        m.m21 as int == rm21_v(*q),
        m.m22 as int == rm22_v(*q),
        -ROT_MAX <= m.m00 <= ROT_MAX,
        -ROT_MAX <= m.m01 <= ROT_MAX,
        -ROT_MAX <= m.m02 <= ROT_MAX,
        -ROT_MAX <= m.m10 <= ROT_MAX,
        -ROT_MAX <= m.m11 <= ROT_MAX,
        -ROT_MAX <= m.m12 <= ROT_MAX,
        -ROT_MAX <= m.m20 <= ROT_MAX,
        -ROT_MAX <= m.m21 <= ROT_MAX,
        -ROT_MAX <= m.m22 <= ROT_MAX,
{
    proof {
        lemma_band_comp_bound(*q);
        // Squared components are nonnegative, which pins the diagonal
        // entries into the admitted range.
        assert((q.x as int) * (q.x as int) >= 0 && (q.y as int) * (q.y as int) >= 0 && (q.z as int)
            * (q.z as int) >= 0) by (nonlinear_arith);
        crate::fixed::lemma_tdiv_shrinks((q.x as int) * (q.x as int), FX_ONE as int);
        crate::fixed::lemma_tdiv_shrinks((q.y as int) * (q.y as int), FX_ONE as int);
        crate::fixed::lemma_tdiv_shrinks((q.z as int) * (q.z as int), FX_ONE as int);
    }
    let xx: i64 = rterm(q.x, q.x);
    let yy: i64 = rterm(q.y, q.y);
    let zz: i64 = rterm(q.z, q.z);
    let xy: i64 = rterm(q.x, q.y);
    let xz: i64 = rterm(q.x, q.z);
    let yz: i64 = rterm(q.y, q.z);
    let xw: i64 = rterm(q.x, q.w);
    let yw: i64 = rterm(q.y, q.w);
    let zw: i64 = rterm(q.z, q.w);
    Mat3Fx {
        m00: FX_ONE - 2 * yy - 2 * zz,
        m01: 2 * (xy - zw),
        m02: 2 * (xz + yw),
        m10: 2 * (xy + zw),
        m11: FX_ONE - 2 * xx - 2 * zz,
        m12: 2 * (yz - xw),
        m20: 2 * (xz - yw),
        m21: 2 * (yz + xw),
        m22: FX_ONE - 2 * xx - 2 * yy,
    }
}

/// `x` component of a vector taken through the inverse (transposed)
/// rotation of a near-unit quaternion.
pub open spec fn rapp_x_v(q: QuatFx, v: Vec3Fx) -> int {
    fx_mul_v(rm00_v(q), v.x as int) + fx_mul_v(rm10_v(q), v.y as int) + fx_mul_v(
        rm20_v(q),
        v.z as int,
    )
}

pub open spec fn rapp_y_v(q: QuatFx, v: Vec3Fx) -> int {
    fx_mul_v(rm01_v(q), v.x as int) + fx_mul_v(rm11_v(q), v.y as int) + fx_mul_v(
        rm21_v(q),
        v.z as int,
    )
}

pub open spec fn rapp_z_v(q: QuatFx, v: Vec3Fx) -> int {
    fx_mul_v(rm02_v(q), v.x as int) + fx_mul_v(rm12_v(q), v.y as int) + fx_mul_v(
        rm22_v(q),
        v.z as int,
    )
}

/// One term of an inverse-rotation application, with its bound.
fn rapp_term(a: i64, b: i64) -> (r: i64)
    requires
        -ROT_MAX <= a <= ROT_MAX,
        -ROT_APPLY_IN_MAX <= b <= ROT_APPLY_IN_MAX,
    ensures
        r as int == fx_mul_v(a as int, b as int),
        -2_900_000_000_000_000_000 <= r <= 2_900_000_000_000_000_000,
{
    proof {
        lemma_fx_mul_bound(a as int, b as int, ROT_MAX as int, ROT_APPLY_IN_MAX as int);
    }
    fx_mul(a, b)
}

/// Apply the inverse of the rotation `q` to `v` (multiply by the
/// transposed rotation matrix).
pub fn rot_apply_inverse(q: &QuatFx, v: &Vec3Fx) -> (r: Vec3Fx)
    requires
        quat_in_band(*q),
        -ROT_APPLY_IN_MAX <= v.x <= ROT_APPLY_IN_MAX,
        -ROT_APPLY_IN_MAX <= v.y <= ROT_APPLY_IN_MAX,
        -ROT_APPLY_IN_MAX <= v.z <= ROT_APPLY_IN_MAX,
    ensures
        r.x as int == rapp_x_v(*q, *v),
        r.y as int == rapp_y_v(*q, *v),
        r.z as int == rapp_z_v(*q, *v),
        -ROT_APPLY_OUT_MAX <= r.x <= ROT_APPLY_OUT_MAX,
        -ROT_APPLY_OUT_MAX <= r.y <= ROT_APPLY_OUT_MAX,
        -ROT_APPLY_OUT_MAX <= r.z <= ROT_APPLY_OUT_MAX,
{
    let m: Mat3Fx = quat_to_mat3(q);
    let x: i64 = rapp_term(m.m00, v.x) + rapp_term(m.m10, v.y) + rapp_term(m.m20, v.z);
    let y: i64 = rapp_term(m.m01, v.x) + rapp_term(m.m11, v.y) + rapp_term(m.m21, v.z);
    let z: i64 = rapp_term(m.m02, v.x) + rapp_term(m.m12, v.y) + rapp_term(m.m22, v.z);
    Vec3Fx { x, y, z }
}

/// Largest linear (rotation/scale) entry accepted by `mat4_apply`.
pub const APPLY_LIN_MAX: i64 = 10_000_000_000_000;

/// Largest translation entry accepted by `mat4_apply`.
pub const APPLY_TR_MAX: i64 = 100_000_000_000_000_000;

/// Largest point component accepted by `mat4_apply`.
pub const APPLY_PT_MAX: i64 = 10_000_000_000;

/// `x` component of an affine matrix applied to a point (`w` taken as 1).
pub open spec fn apply_x_v(m: Mat4Fx, v: Vec3Fx) -> int {
    fx_mul_v(m.m00 as int, v.x as int) + fx_mul_v(m.m01 as int, v.y as int) + fx_mul_v(
        m.m02 as int,
        v.z as int,
    ) + m.m03 as int
}

pub open spec fn apply_y_v(m: Mat4Fx, v: Vec3Fx) -> int {
    fx_mul_v(m.m10 as int, v.x as int) + fx_mul_v(m.m11 as int, v.y as int) + fx_mul_v(
        m.m12 as int,
        v.z as int,
    ) + m.m13 as int
}

pub open spec fn apply_z_v(m: Mat4Fx, v: Vec3Fx) -> int {
    fx_mul_v(m.m20 as int, v.x as int) + fx_mul_v(m.m21 as int, v.y as int) + fx_mul_v(
        m.m22 as int,
        v.z as int,
    ) + m.m23 as int
}

/// One linear term of an affine application, with its bound.
fn apply_term(a: i64, b: i64) -> (r: i64)
    requires
        -APPLY_LIN_MAX <= a <= APPLY_LIN_MAX,
        -APPLY_PT_MAX <= b <= APPLY_PT_MAX,
    ensures
        r as int == fx_mul_v(a as int, b as int),
        -100_000_000_000_000_000 <= r <= 100_000_000_000_000_000,
{
    proof {
        lemma_fx_mul_bound(a as int, b as int, APPLY_LIN_MAX as int, APPLY_PT_MAX as int);
    }
    fx_mul(a, b)
}

/// Apply an affine transform (rows 0-2 of `m`) to a point.
pub fn mat4_apply(m: &Mat4Fx, v: &Vec3Fx) -> (r: Vec3Fx)
    requires
        -APPLY_LIN_MAX <= m.m00 <= APPLY_LIN_MAX,
        -APPLY_LIN_MAX <= m.m01 <= APPLY_LIN_MAX,
        -APPLY_LIN_MAX <= m.m02 <= APPLY_LIN_MAX,
        -APPLY_LIN_MAX <= m.m10 <= APPLY_LIN_MAX,
        -APPLY_LIN_MAX <= m.m11 <= APPLY_LIN_MAX,
        -APPLY_LIN_MAX <= m.m12 <= APPLY_LIN_MAX,
        -APPLY_LIN_MAX <= m.m20 <= APPLY_LIN_MAX,
        -APPLY_LIN_MAX <= m.m21 <= APPLY_LIN_MAX,
        -APPLY_LIN_MAX <= m.m22 <= APPLY_LIN_MAX,
        -APPLY_TR_MAX <= m.m03 <= APPLY_TR_MAX,
        -APPLY_TR_MAX <= m.m13 <= APPLY_TR_MAX,
        -APPLY_TR_MAX <= m.m23 <= APPLY_TR_MAX,
        -APPLY_PT_MAX <= v.x <= APPLY_PT_MAX,
        -APPLY_PT_MAX <= v.y <= APPLY_PT_MAX,
        -APPLY_PT_MAX <= v.z <= APPLY_PT_MAX,
    ensures
        r.x as int == apply_x_v(*m, *v),
        r.y as int == apply_y_v(*m, *v),
        r.z as int == apply_z_v(*m, *v),
{
    let x: i64 = apply_term(m.m00, v.x) + apply_term(m.m01, v.y) + apply_term(m.m02, v.z) + m.m03;
    let y: i64 = apply_term(m.m10, v.x) + apply_term(m.m11, v.y) + apply_term(m.m12, v.z) + m.m13;
    let z: i64 = apply_term(m.m20, v.x) + apply_term(m.m21, v.y) + apply_term(m.m22, v.z) + m.m23;
    Vec3Fx { x, y, z }
}

} // verus!
