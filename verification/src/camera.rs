//! The camera: orientation, zoom, center of interest and viewport size,
//! with the mouse state machine that drives them.
//!
//! All quantities are fixed-point (see [`crate::fixed`]).  The camera
//! keeps these invariants (see [`Camera::wf`]): the viewport is at least
//! one pixel on each side and its aspect ratio stays within 1:100, the
//! zoom scale is positive and bounded, the center of interest stays in
//! the supported coordinate range, and the orientation quaternion stays
//! within [`QUAT_BAND`](crate::vecmath::QUAT_BAND) of unit length.

use vstd::prelude::*;

use crate::fixed::{
    cdiv, clamp_i128, clamp_v, fx_div, fx_div_v, fx_mul, fx_mul_v, lemma_fx_mul_bound,
    lemma_tdiv_mono_abs, lemma_tdiv_shrinks, tdiv, FX_ONE,
};
use crate::geometry::GPUVertex;
use crate::vecmath::{
    apply_x_v, apply_y_v, apply_z_v, lemma_band_comp_bound, quat_identity, quat_identity_v,
    quat_in_band, quat_mul, quat_norm_sq,
    quat_renormalize, quat_to_mat3, rapp_x_v, rapp_y_v, rapp_z_v, rm00_v, rm01_v, rm02_v, rm10_v,
    rm11_v, rm12_v, rm20_v, rm21_v, rm22_v, rot_apply_inverse, spec_quat_mul, spec_quat_renorm,
    Mat3Fx, Mat4Fx, QuatFx, Vec2Fx, Vec3Fx, QMUL_OUT_MAX, ROT_APPLY_IN_MAX, ROT_MAX,
};

verus! {

/// Largest viewport side, in raw units (one million pixels).
pub const DIM_MAX: i64 = 1_000_000_000_000;

/// Largest magnitude of a model coordinate or of the camera center.
pub const COORD_MAX: i64 = 5_000_000_000;

/// Largest zoom scale; also the scale a degenerate (zero-extent) model
/// is clamped to by the bounds fit.
pub const SCALE_MAX: i64 = 800_000_000_000;

/// Largest magnitude of a pointer coordinate, in raw units.
pub const POS_MAX: i64 = 1_000_000_000_000;

/// Rotation sensitivity: half-angle units per raw unit of pointer travel.
pub const ROT_SENS: i64 = 5_000;

/// Scroll sensitivity: raw scroll units per zoom-step millionth.
pub const SCROLL_STEP_DIV: i64 = 1_200;

/// Base of the inverse zoom mapping (1200 pixels, in raw units).
pub const SCROLL_BASE: i64 = 1_200_000_000;

/// Largest aspect ratio, raw (a 1:100 viewport).
pub const ASPECT_MAX: i64 = 100_000_000;

/// Largest magnitude of a linear (rotation-and-scale) entry of the
/// model matrix.
pub const MLIN_MAX: i64 = 3_280_000_000_000;

/// Largest magnitude of a translation entry of the model matrix.
pub const MTR_MAX: i64 = 49_200_000_000_000_000;

/// The pointer buttons the camera distinguishes.
#[derive(Clone, Copy, Debug, PartialEq, Eq, Structural)]
pub enum MouseButton {
    /// The primary button; dragging orbits the model.
    Primary,
    /// The secondary button; dragging pans.
    Secondary,
    /// The middle button; dragging pans.
    Middle,
    /// Any other button; ignored.
    Other,
}

/// What a pointer-move delta means, driven by the buttons held.
#[derive(Clone, Copy, Debug, PartialEq, Eq, Structural)]
pub enum MouseState {
    /// No pointer position seen yet.
    Unknown,
    /// No button held; the position is merely tracked.
    Free(Vec2Fx),
    /// Primary drag in progress from the stored position.
    Rotate(Vec2Fx),
    /// Pan drag in progress from the stored position; the second payload
    /// is the world-space pivot under the cursor at press time.
    Pan(Vec2Fx, Vec3Fx),
}

/// The camera state.
pub struct Camera {
    /// Viewport width in raw units of pixels.
    pub width: i64,
    /// Viewport height in raw units of pixels.
    pub height: i64,
    /// Uniform model scale; positive.
    pub scale: i64,
    /// Center of the view volume, in model coordinates.
    pub center: Vec3Fx,
    /// The mouse state machine.
    pub mouse: MouseState,
    /// Orientation, always within the unit band.
    pub quat: QuatFx,
}

/// A pointer position is in the supported range.
pub open spec fn pos_wf(p: Vec2Fx) -> bool {
    &&& -POS_MAX <= p.x <= POS_MAX
    &&& -POS_MAX <= p.y <= POS_MAX
}

/// Positions stored in the mouse state are in range.
pub open spec fn mouse_wf(m: MouseState) -> bool {
    match m {
        MouseState::Unknown => true,
        MouseState::Free(p) => pos_wf(p),
        MouseState::Rotate(p) => pos_wf(p),
        MouseState::Pan(p, _) => pos_wf(p),
    }
}

impl Camera {
    /// The camera invariant.
    pub open spec fn wf(self) -> bool {
        &&& FX_ONE <= self.width <= DIM_MAX
        &&& FX_ONE <= self.height <= DIM_MAX
        &&& self.width <= 100 * self.height
        &&& self.height <= 100 * self.width
        &&& 1 <= self.scale <= SCALE_MAX
        &&& -COORD_MAX <= self.center.x <= COORD_MAX
        &&& -COORD_MAX <= self.center.y <= COORD_MAX
        &&& -COORD_MAX <= self.center.z <= COORD_MAX
        &&& quat_in_band(self.quat)
        &&& mouse_wf(self.mouse)
    }

    /// The freshly constructed camera: identity orientation, unit scale,
    /// origin center, no pointer position known.
    pub open spec fn spec_new(width: i64, height: i64) -> Camera {
        Camera {
            width,
            height,
            scale: FX_ONE,
            center: Vec3Fx { x: 0, y: 0, z: 0 },
            mouse: MouseState::Unknown,
            quat: quat_identity_v(),
        }
    }

    /// Make a camera for a viewport of the given raw pixel dimensions.
    pub fn new(width: i64, height: i64) -> (c: Camera)
        requires
            FX_ONE <= width <= DIM_MAX,
            FX_ONE <= height <= DIM_MAX,
            width <= 100 * height,
            height <= 100 * width,
        ensures
            c == Self::spec_new(width, height),
            c.wf(),
    {
        proof {
            assert(quat_in_band(quat_identity_v())) by {
                assert(quat_norm_sq(quat_identity_v()) == 1_000_000_000_000);
            }
        }
        Camera {
            width,
            height,
            scale: FX_ONE,
            center: Vec3Fx { x: 0, y: 0, z: 0 },
            mouse: MouseState::Unknown,
            quat: quat_identity(),
        }
    }

    /// `set_size` only replaces the stored viewport dimensions.
    pub open spec fn spec_set_size(self, width: i64, height: i64) -> Camera {
        Camera { width, height, ..self }
    }

    /// Record a new viewport size; no other camera state changes.
    pub fn set_size(&mut self, width: i64, height: i64)
        requires
            old(self).wf(),
            FX_ONE <= width <= DIM_MAX,
            FX_ONE <= height <= DIM_MAX,
            width <= 100 * height,
            height <= 100 * width,
        ensures
            *final(self) == old(self).spec_set_size(width, height),
            final(self).wf(),
    {
        self.width = width;
        self.height = height;
    }

    /// The view matrix: push the model half a unit forward in Z, scale Y
    /// by the aspect ratio, and compress Z to a tenth.
    pub open spec fn spec_view(self) -> Mat4Fx {
        Mat4Fx {
            m00: FX_ONE,
            m01: 0,
            m02: 0,
            m03: 0,
            m10: 0,
            m11: fx_div_v(self.width as int, self.height as int) as i64,
            m12: 0,
            m13: 0,
            m20: 0,
            m21: 0,
            m22: 100_000,
            m23: 500_000,
            m30: 0,
            m31: 0,
            m32: 0,
            m33: FX_ONE,
        }
    }

    /// Matrix compensating for window aspect ratio and clipping.
    pub fn view_matrix(&self) -> (m: Mat4Fx)
        requires
            self.wf(),
        ensures
            m == self.spec_view(),
    {
        proof {
            lemma_aspect_bounds(self.width as int, self.height as int);
        }
        let a: i64 = fx_div(self.width, self.height);
        Mat4Fx {
            m00: FX_ONE,
            m01: 0,
            m02: 0,
            m03: 0,
            m10: 0,
            m11: a,
            m12: 0,
            m13: 0,
            m20: 0,
            m21: 0,
            m22: 100_000,
            m23: 500_000,
            m30: 0,
            m31: 0,
            m32: 0,
            m33: FX_ONE,
        }
    }

    /// The model matrix: recenter at the origin, rotate, scale to fit,
    /// and flip handedness by negating the Z row.
    pub open spec fn spec_model(self) -> Mat4Fx {
        let s = self.scale as int;
        let q = self.quat;
        let m00 = fx_mul_v(s, rm00_v(q)) as i64;
        let m01 = fx_mul_v(s, rm01_v(q)) as i64;
        let m02 = fx_mul_v(s, rm02_v(q)) as i64;
        let m10 = fx_mul_v(s, rm10_v(q)) as i64;
        let m11 = fx_mul_v(s, rm11_v(q)) as i64;
        let m12 = fx_mul_v(s, rm12_v(q)) as i64;
        let m20 = (-fx_mul_v(s, rm20_v(q))) as i64;
        let m21 = (-fx_mul_v(s, rm21_v(q))) as i64;
        let m22 = (-fx_mul_v(s, rm22_v(q))) as i64;
        let t0 = (-(fx_mul_v(m00 as int, self.center.x as int) + fx_mul_v(
            m01 as int,
            self.center.y as int,
        ) + fx_mul_v(m02 as int, self.center.z as int))) as i64;
        let t1 = (-(fx_mul_v(m10 as int, self.center.x as int) + fx_mul_v(
            m11 as int,
            self.center.y as int,
        ) + fx_mul_v(m12 as int, self.center.z as int))) as i64;
        let t2 = (-(fx_mul_v(m20 as int, self.center.x as int) + fx_mul_v(
            m21 as int,
            self.center.y as int,
        ) + fx_mul_v(m22 as int, self.center.z as int))) as i64;
        Mat4Fx {
            m00,
            m01,
            m02,
            m03: t0,
            m10,
            m11,
            m12,
            m13: t1,
            m20,
            m21,
            m22,
            m23: t2,
            m30: 0,
            m31: 0,
            m32: 0,
            m33: FX_ONE,
        }
    }

    /// Compose the model transform from the current orientation, scale
    /// and center.
    #[verifier::rlimit(30)]
    pub fn model_matrix(&self) -> (m: Mat4Fx)
        requires
            self.wf(),
        ensures
            m == self.spec_model(),
            -MLIN_MAX <= m.m00 <= MLIN_MAX,
            -MLIN_MAX <= m.m01 <= MLIN_MAX,
            -MLIN_MAX <= m.m02 <= MLIN_MAX,
            -MLIN_MAX <= m.m10 <= MLIN_MAX,
            -MLIN_MAX <= m.m11 <= MLIN_MAX,
            -MLIN_MAX <= m.m12 <= MLIN_MAX,
            -MLIN_MAX <= m.m20 <= MLIN_MAX,
            -MLIN_MAX <= m.m21 <= MLIN_MAX,
            -MLIN_MAX <= m.m22 <= MLIN_MAX,
            -MTR_MAX <= m.m03 <= MTR_MAX,
            -MTR_MAX <= m.m13 <= MTR_MAX,
            -MTR_MAX <= m.m23 <= MTR_MAX,
    {
        let r3: Mat3Fx = quat_to_mat3(&self.quat);
        let s: i64 = self.scale;
        let m00: i64 = smul(s, r3.m00);
        let m01: i64 = smul(s, r3.m01);
        let m02: i64 = smul(s, r3.m02);
        let m10: i64 = smul(s, r3.m10);
        let m11: i64 = smul(s, r3.m11);
        let m12: i64 = smul(s, r3.m12);
        let m20: i64 = -smul(s, r3.m20);
        let m21: i64 = -smul(s, r3.m21);
        let m22: i64 = -smul(s, r3.m22);
        let cx: i64 = self.center.x;
        let cy: i64 = self.center.y;
        let cz: i64 = self.center.z;
        let t0: i64 = -(tprod(m00, cx) + tprod(m01, cy) + tprod(m02, cz));
        let t1: i64 = -(tprod(m10, cx) + tprod(m11, cy) + tprod(m12, cz));
        let t2: i64 = -(tprod(m20, cx) + tprod(m21, cy) + tprod(m22, cz));
        Mat4Fx {
            m00,
            m01,
            m02,
            m03: t0,
            m10,
            m11,
            m12,
            m13: t1,
            m20,
            m21,
            m22,
            m23: t2,
            m30: 0,
            m31: 0,
            m32: 0,
            m33: FX_ONE,
        }
    }

    /// The combined transform `view * model`, applied to every vertex.
    pub open spec fn spec_mat(self) -> Mat4Fx {
        let a = fx_div_v(self.width as int, self.height as int);
        let mm = self.spec_model();
        Mat4Fx {
            m00: mm.m00,
            m01: mm.m01,
            m02: mm.m02,
            m03: mm.m03,
            m10: fx_mul_v(a, mm.m10 as int) as i64,
            m11: fx_mul_v(a, mm.m11 as int) as i64,
            m12: fx_mul_v(a, mm.m12 as int) as i64,
            m13: fx_mul_v(a, mm.m13 as int) as i64,
            m20: fx_mul_v(100_000, mm.m20 as int) as i64,
            m21: fx_mul_v(100_000, mm.m21 as int) as i64,
            m22: fx_mul_v(100_000, mm.m22 as int) as i64,
            m23: (fx_mul_v(100_000, mm.m23 as int) + 500_000) as i64,
            m30: 0,
            m31: 0,
            m32: 0,
            m33: FX_ONE,
        }
    }

    /// Compose `view_matrix() * model_matrix()` in closed form.
    pub fn mat(&self) -> (m: Mat4Fx)
        requires
            self.wf(),
        ensures
            m == self.spec_mat(),
    {
        proof {
            lemma_aspect_bounds(self.width as int, self.height as int);
        }
        let a: i64 = fx_div(self.width, self.height);
        let mm: Mat4Fx = self.model_matrix();
        Mat4Fx {
            m00: mm.m00,
            m01: mm.m01,
            m02: mm.m02,
            m03: mm.m03,
            m10: amul(a, mm.m10),
            m11: amul(a, mm.m11),
            m12: amul(a, mm.m12),
            m13: atmul(a, mm.m13),
            m20: zmul(mm.m20),
            m21: zmul(mm.m21),
            m22: zmul(mm.m22),
            m23: zmul(mm.m23) + 500_000,
            m30: 0,
            m31: 0,
            m32: 0,
            m33: FX_ONE,
        }
    }

    /// The scale after one scroll event.  A positive delta multiplies the
    /// scale by `1 + step/1e6` (rounded up, `step = max(1, delta/1200)`),
    /// a negative delta by the reciprocal factor `1200e6/(1200e6 - delta)`
    /// (rounded down), and the result is clamped into `[1, SCALE_MAX]`,
    /// so the scale never leaves the positive range.
    pub open spec fn scroll_scale_v(s: int, delta: int) -> int {
        if delta > 0 {
            let st = tdiv(delta, SCROLL_STEP_DIV as int);
            let step = if st < 1 {
                1
            } else {
                st
            };
            clamp_v(cdiv(s * (FX_ONE as int + step), FX_ONE as int), 1, SCALE_MAX as int)
        } else if delta < 0 {
            let f = tdiv(
                (SCROLL_BASE as int) * (FX_ONE as int),
                (SCROLL_BASE as int) - delta,
            );
            clamp_v(tdiv(s * f, FX_ONE as int), 1, SCALE_MAX as int)
        } else {
            s
        }
    }

    /// `mouse_scroll` only rescales.
    pub open spec fn spec_mouse_scroll(self, delta: int) -> Camera {
        Camera { scale: Self::scroll_scale_v(self.scale as int, delta) as i64, ..self }
    }

    /// Zoom by a vertical scroll delta (raw units of pixels).
    pub fn mouse_scroll(&mut self, delta: i64)
        requires
            old(self).wf(),
        ensures
            *final(self) == old(self).spec_mouse_scroll(delta as int),
            final(self).wf(),
    {
        if delta > 0 {
            let st: i128 = (delta as i128) / (SCROLL_STEP_DIV as i128);
            let step: i128 = if st < 1 {
                1
            } else {
                st
            };
            let f: i128 = (FX_ONE as i128) + step;
            proof {
                lemma_tdiv_shrinks(delta as int, SCROLL_STEP_DIV as int);
                assert(0 <= (self.scale as int) * (f as int)
                    <= 0x1000_0000_0000_0000_0000_0000_0000int) by (nonlinear_arith)
                    requires
                        0 <= self.scale as int <= 1_000_000_000_000,
                        0 <= f as int <= 100_000_000_000_000_000_000,
                ;
            }
            let p: i128 = (self.scale as i128) * f;
            let q: i128 = (p + (FX_ONE as i128) - 1) / (FX_ONE as i128);
            self.scale = clamp_i128(q, 1, SCALE_MAX);
        } else if delta < 0 {
            let nd: i128 = -(delta as i128);
            let f: i128 = ((SCROLL_BASE as i128) * (FX_ONE as i128)) / ((SCROLL_BASE as i128)
                + nd);
            proof {
                vstd::arithmetic::div_mod::lemma_div_is_ordered_by_denominator(
                    (SCROLL_BASE as int) * (FX_ONE as int),
                    (SCROLL_BASE as int) + 1,
                    (SCROLL_BASE as int) + (nd as int),
                );
                vstd::arithmetic::div_mod::lemma_div_pos_is_pos(
                    (SCROLL_BASE as int) * (FX_ONE as int),
                    (SCROLL_BASE as int) + (nd as int),
                );
                assert(0 <= (self.scale as int) * (f as int)
                    <= 0x1000_0000_0000_0000_0000_0000_0000int) by (nonlinear_arith)
                    requires
                        0 <= self.scale as int <= 1_000_000_000_000,
                        0 <= f as int <= 1_000_000,
                ;
            }
            let p: i128 = (self.scale as i128) * f;
            let q: i128 = p / (FX_ONE as i128);
            self.scale = clamp_i128(q, 1, SCALE_MAX);
        }
    }
}

/// Largest magnitude of a normalized device coordinate here.
pub const NDC_MAX: i64 = 3_000_000_000_000;

/// Normalized device X of a raw pixel X: `2*px/width - 1`.
pub open spec fn ndc_x_v(px: int, width: int) -> int {
    fx_div_v(2 * px - width, width)
}

/// Normalized device Y of a raw pixel Y: `1 - 2*py/height` (screen Y
/// grows downward, device Y upward).
pub open spec fn ndc_y_v(py: int, height: int) -> int {
    fx_div_v(height - 2 * py, height)
}

/// Executable normalized device X.
fn ndc_x(px: i64, width: i64) -> (r: i64)
    requires
        FX_ONE <= width <= DIM_MAX,
        -POS_MAX <= px <= POS_MAX,
    ensures
        r as int == ndc_x_v(px as int, width as int),
        -NDC_MAX <= r <= NDC_MAX,
{
    proof {
        crate::fixed::lemma_tdiv_abs_denom(
            (2 * (px as int) - (width as int)) * 1_000_000,
            3_000_000_000_000_000_000,
            width as int,
            1_000_000,
        );
    }
    fx_div(2 * px - width, width)
}

/// Executable normalized device Y.
fn ndc_y(py: i64, height: i64) -> (r: i64)
    requires
        FX_ONE <= height <= DIM_MAX,
        -POS_MAX <= py <= POS_MAX,
    ensures
        r as int == ndc_y_v(py as int, height as int),
        -NDC_MAX <= r <= NDC_MAX,
{
    proof {
        crate::fixed::lemma_tdiv_abs_denom(
            ((height as int) - 2 * (py as int)) * 1_000_000,
            3_000_000_000_000_000_000,
            height as int,
            1_000_000,
        );
    }
    fx_div(height - 2 * py, height)
}

/// Divide a raw value by the zoom scale and clamp the result into the
/// range the rotation application accepts.
fn sdiv_clamp(a: i64, s: i64) -> (r: i64)
    requires
        1 <= s,
    ensures
        r as int == clamp_v(
            tdiv((a as int) * (FX_ONE as int), s as int),
            -ROT_APPLY_IN_MAX as int,
            ROT_APPLY_IN_MAX as int,
        ),
        -ROT_APPLY_IN_MAX <= r <= ROT_APPLY_IN_MAX,
{
    let p: i128 = (a as i128) * (FX_ONE as i128);
    let q: i128 = p / (s as i128);
    clamp_i128(q, -ROT_APPLY_IN_MAX, ROT_APPLY_IN_MAX)
}

/// The pointer position the state machine last saw, or the origin.
pub open spec fn cur_pos_v(m: MouseState) -> Vec2Fx {
    match m {
        MouseState::Unknown => Vec2Fx { x: 0, y: 0 },
        MouseState::Free(p) => p,
        MouseState::Rotate(p) => p,
        MouseState::Pan(p, _) => p,
    }
}

impl Camera {
    /// Executable form of [`cur_pos_v`].
    fn cur_pos(&self) -> (p: Vec2Fx)
        requires
            mouse_wf(self.mouse),
        ensures
            p == cur_pos_v(self.mouse),
            pos_wf(p),
    {
        match self.mouse {
            MouseState::Unknown => Vec2Fx { x: 0, y: 0 },
            MouseState::Free(p) => p,
            MouseState::Rotate(p) => p,
            MouseState::Pan(p, _) => p,
        }
    }

    /// The world-space point under a cursor position: the device
    /// coordinates of the cursor taken back through the inverses of the
    /// view transform, the handedness flip, the scale and the rotation,
    /// then offset by the center of interest.  Intermediate values are
    /// clamped into the supported range.
    pub open spec fn spec_unproject(self, p: Vec2Fx) -> Vec3Fx {
        let nx = ndc_x_v(p.x as int, self.width as int);
        let nyr = ndc_y_v(p.y as int, self.height as int);
        let ai = fx_div_v(self.height as int, self.width as int);
        let ny = fx_mul_v(nyr, ai);
        let vx = clamp_v(
            tdiv(nx * (FX_ONE as int), self.scale as int),
            -ROT_APPLY_IN_MAX as int,
            ROT_APPLY_IN_MAX as int,
        ) as i64;
        let vy = clamp_v(
            tdiv(ny * (FX_ONE as int), self.scale as int),
            -ROT_APPLY_IN_MAX as int,
            ROT_APPLY_IN_MAX as int,
        ) as i64;
        let vz = clamp_v(
            tdiv(5_000_000 * (FX_ONE as int), self.scale as int),
            -ROT_APPLY_IN_MAX as int,
            ROT_APPLY_IN_MAX as int,
        ) as i64;
        let v = Vec3Fx { x: vx, y: vy, z: vz };
        Vec3Fx {
            x: (self.center.x + rapp_x_v(self.quat, v)) as i64,
            y: (self.center.y + rapp_y_v(self.quat, v)) as i64,
            z: (self.center.z + rapp_z_v(self.quat, v)) as i64,
        }
    }

    /// Executable unprojection of a cursor position.
    #[verifier::rlimit(30)]
    fn unproject(&self, p: Vec2Fx) -> (r: Vec3Fx)
        requires
            self.wf(),
            pos_wf(p),
        ensures
            r == self.spec_unproject(p),
    {
        proof {
            lemma_aspect_bounds(self.height as int, self.width as int);
        }
        let ai: i64 = fx_div(self.height, self.width);
        let nx: i64 = ndc_x(p.x, self.width);
        let nyr: i64 = ndc_y(p.y, self.height);
        proof {
            lemma_fx_mul_bound(nyr as int, ai as int, NDC_MAX as int, ASPECT_MAX as int);
        }
        let ny: i64 = fx_mul(nyr, ai);
        let vx: i64 = sdiv_clamp(nx, self.scale);
        let vy: i64 = sdiv_clamp(ny, self.scale);
        let vz: i64 = sdiv_clamp(5_000_000, self.scale);
        let v = Vec3Fx { x: vx, y: vy, z: vz };
        let wv: Vec3Fx = rot_apply_inverse(&self.quat, &v);
        Vec3Fx { x: self.center.x + wv.x, y: self.center.y + wv.y, z: self.center.z + wv.z }
    }

    /// A button press starts a drag: the primary button starts an orbit
    /// from the last known position; the secondary or middle button
    /// starts a pan around the world point under the cursor (the origin
    /// when no position was ever seen); other buttons change nothing.
    pub open spec fn spec_mouse_pressed(self, button: MouseButton) -> Camera {
        match button {
            MouseButton::Primary => Camera {
                mouse: MouseState::Rotate(cur_pos_v(self.mouse)),
                ..self
            },
            MouseButton::Secondary | MouseButton::Middle => {
                let pv = if self.mouse is Unknown {
                    Vec3Fx { x: 0, y: 0, z: 0 }
                } else {
                    self.spec_unproject(cur_pos_v(self.mouse))
                };
                Camera { mouse: MouseState::Pan(cur_pos_v(self.mouse), pv), ..self }
            },
            MouseButton::Other => self,
        }
    }

    /// React to a pointer-button press.
    pub fn mouse_pressed(&mut self, button: MouseButton)
        requires
            old(self).wf(),
        ensures
            *final(self) == old(self).spec_mouse_pressed(button),
            final(self).wf(),
    {
        match button {
            MouseButton::Primary => {
                let p: Vec2Fx = self.cur_pos();
                self.mouse = MouseState::Rotate(p);
            },
            MouseButton::Secondary | MouseButton::Middle => {
                let p: Vec2Fx = self.cur_pos();
                let pv: Vec3Fx = if matches!(self.mouse, MouseState::Unknown) {
                    Vec3Fx { x: 0, y: 0, z: 0 }
                } else {
                    self.unproject(p)
                };
                self.mouse = MouseState::Pan(p, pv);
            },
            MouseButton::Other => {},
        }
    }

    /// A release ends any drag, back to freely tracking the last
    /// position; before any position is known it changes nothing.
    pub open spec fn spec_mouse_released(self, button: MouseButton) -> Camera {
        match self.mouse {
            MouseState::Unknown => self,
            MouseState::Free(p) => Camera { mouse: MouseState::Free(p), ..self },
            MouseState::Rotate(p) => Camera { mouse: MouseState::Free(p), ..self },
            MouseState::Pan(p, _) => Camera { mouse: MouseState::Free(p), ..self },
        }
    }

    /// React to a pointer-button release.  Which button it was does not
    /// matter: any release ends the drag in progress.
    pub fn mouse_released(&mut self, button: MouseButton)
        requires
            old(self).wf(),
        ensures
            *final(self) == old(self).spec_mouse_released(button),
            final(self).wf(),
    {
        let _ = button;
        match self.mouse {
            MouseState::Unknown => {},
            MouseState::Free(p) => {
                self.mouse = MouseState::Free(p);
            },
            MouseState::Rotate(p) => {
                self.mouse = MouseState::Free(p);
            },
            MouseState::Pan(p, _) => {
                self.mouse = MouseState::Free(p);
            },
        }
    }

    /// A pointer move.  Orbiting composes a small rotation — axis in the
    /// screen plane, half-angle proportional to the drag delta — onto
    /// the orientation and renormalizes; panning shifts the center of
    /// interest by the drag delta taken through the inverse transform,
    /// so the pivot stays under the cursor; otherwise the position is
    /// merely recorded.
    pub open spec fn spec_mouse_move(self, p: Vec2Fx) -> Camera {
        match self.mouse {
            MouseState::Unknown => Camera { mouse: MouseState::Free(p), ..self },
            MouseState::Free(_) => Camera { mouse: MouseState::Free(p), ..self },
            MouseState::Rotate(prev) => {
                let dq = QuatFx {
                    x: fx_mul_v(p.y as int - prev.y as int, ROT_SENS as int) as i64,
                    y: fx_mul_v(p.x as int - prev.x as int, ROT_SENS as int) as i64,
                    z: 0,
                    w: FX_ONE,
                };
                Camera {
                    quat: spec_quat_renorm(spec_quat_mul(dq, self.quat)),
                    mouse: MouseState::Rotate(p),
                    ..self
                }
            },
            MouseState::Pan(prev, piv) => {
                let dnx = ndc_x_v(p.x as int, self.width as int) - ndc_x_v(
                    prev.x as int,
                    self.width as int,
                );
                let dnyr = ndc_y_v(p.y as int, self.height as int) - ndc_y_v(
                    prev.y as int,
                    self.height as int,
                );
                let ai = fx_div_v(self.height as int, self.width as int);
                let dny = fx_mul_v(dnyr, ai);
                let sx = clamp_v(
                    tdiv(dnx * (FX_ONE as int), self.scale as int),
                    -ROT_APPLY_IN_MAX as int,
                    ROT_APPLY_IN_MAX as int,
                ) as i64;
                let sy = clamp_v(
                    tdiv(dny * (FX_ONE as int), self.scale as int),
                    -ROT_APPLY_IN_MAX as int,
                    ROT_APPLY_IN_MAX as int,
                ) as i64;
                let v = Vec3Fx { x: sx, y: sy, z: 0 };
                let nc = Vec3Fx {
                    x: clamp_v(
                        self.center.x - rapp_x_v(self.quat, v),
                        -COORD_MAX as int,
                        COORD_MAX as int,
                    ) as i64,
                    y: clamp_v(
                        self.center.y - rapp_y_v(self.quat, v),
                        -COORD_MAX as int,
                        COORD_MAX as int,
                    ) as i64,
                    z: clamp_v(
                        self.center.z - rapp_z_v(self.quat, v),
                        -COORD_MAX as int,
                        COORD_MAX as int,
                    ) as i64,
                };
                Camera { center: nc, mouse: MouseState::Pan(p, piv), ..self }
            },
        }
    }

    /// React to a pointer move.
    #[verifier::rlimit(30)]
    pub fn mouse_move(&mut self, p: Vec2Fx)
        requires
            old(self).wf(),
            pos_wf(p),
        ensures
            *final(self) == old(self).spec_mouse_move(p),
            final(self).wf(),
    {
        match self.mouse {
            MouseState::Unknown => {
                self.mouse = MouseState::Free(p);
            },
            MouseState::Free(_) => {
                self.mouse = MouseState::Free(p);
            },
            MouseState::Rotate(prev) => {
                proof {
                    lemma_band_comp_bound(self.quat);
                    lemma_fx_mul_bound(
                        p.y as int - prev.y as int,
                        ROT_SENS as int,
                        2_000_000_000_000,
                        ROT_SENS as int,
                    );
                    lemma_fx_mul_bound(
                        p.x as int - prev.x as int,
                        ROT_SENS as int,
                        2_000_000_000_000,
                        ROT_SENS as int,
                    );
                }
                let dy: i64 = p.y - prev.y;
                let dx: i64 = p.x - prev.x;
                let dq = QuatFx { x: fx_mul(dy, ROT_SENS), y: fx_mul(dx, ROT_SENS), z: 0, w: FX_ONE };
                let qp: QuatFx = quat_mul(&dq, &self.quat);
                self.quat = quat_renormalize(&qp);
                self.mouse = MouseState::Rotate(p);
            },
            MouseState::Pan(prev, piv) => {
                proof {
                    lemma_aspect_bounds(self.height as int, self.width as int);
                }
                let ai: i64 = fx_div(self.height, self.width);
                let nx1: i64 = ndc_x(p.x, self.width);
                let nx0: i64 = ndc_x(prev.x, self.width);
                let ny1: i64 = ndc_y(p.y, self.height);
                let ny0: i64 = ndc_y(prev.y, self.height);
                let dnx: i64 = nx1 - nx0;
                proof {
                    lemma_fx_mul_bound(
                        ny1 as int - ny0 as int,
                        ai as int,
                        6_000_000_000_000,
                        ASPECT_MAX as int,
                    );
                }
                let dny: i64 = fx_mul(ny1 - ny0, ai);
                let sx: i64 = sdiv_clamp(dnx, self.scale);
                let sy: i64 = sdiv_clamp(dny, self.scale);
                let v = Vec3Fx { x: sx, y: sy, z: 0 };
                let wv: Vec3Fx = rot_apply_inverse(&self.quat, &v);
                let ncx: i64 = clamp_i128(
                    (self.center.x as i128) - (wv.x as i128),
                    -COORD_MAX,
                    COORD_MAX,
                );
                let ncy: i64 = clamp_i128(
                    (self.center.y as i128) - (wv.y as i128),
                    -COORD_MAX,
                    COORD_MAX,
                );
                let ncz: i64 = clamp_i128(
                    (self.center.z as i128) - (wv.z as i128),
                    -COORD_MAX,
                    COORD_MAX,
                );
                self.center = Vec3Fx { x: ncx, y: ncy, z: ncz };
                self.mouse = MouseState::Pan(p, piv);
            },
        }
    }

    /// An externally supplied orientation replaces the camera's: taken
    /// as-is when already within the unit band, renormalized otherwise.
    /// The result depends on the incoming pose alone.
    pub open spec fn spec_set_orientation(self, q: QuatFx) -> Camera {
        let nq = if quat_in_band(q) {
            q
        } else {
            spec_quat_renorm(q)
        };
        Camera { quat: nq, ..self }
    }

    /// Adopt an orientation received from an outside pose source.
    pub fn set_orientation(&mut self, q: QuatFx)
        requires
            old(self).wf(),
            -QMUL_OUT_MAX <= q.x <= QMUL_OUT_MAX,
            -QMUL_OUT_MAX <= q.y <= QMUL_OUT_MAX,
            -QMUL_OUT_MAX <= q.z <= QMUL_OUT_MAX,
            -QMUL_OUT_MAX <= q.w <= QMUL_OUT_MAX,
        ensures
            *final(self) == old(self).spec_set_orientation(q),
            final(self).wf(),
    {
        proof {
            assert(0 <= (q.x as int) * (q.x as int)
                <= 0x1000_0000_0000_0000_0000_0000_0000_0000int && 0 <= (q.y as int) * (q.y as int)
                <= 0x1000_0000_0000_0000_0000_0000_0000_0000int && 0 <= (q.z as int) * (q.z as int)
                <= 0x1000_0000_0000_0000_0000_0000_0000_0000int && 0 <= (q.w as int) * (q.w as int)
                <= 0x1000_0000_0000_0000_0000_0000_0000_0000int) by (nonlinear_arith)
                requires
                    -QMUL_OUT_MAX as int <= q.x as int <= QMUL_OUT_MAX as int,
                    -QMUL_OUT_MAX as int <= q.y as int <= QMUL_OUT_MAX as int,
                    -QMUL_OUT_MAX as int <= q.z as int <= QMUL_OUT_MAX as int,
                    -QMUL_OUT_MAX as int <= q.w as int <= QMUL_OUT_MAX as int,
            ;
        }
        let s: i128 = (q.x as i128) * (q.x as i128) + (q.y as i128) * (q.y as i128) + (q.z as i128)
            * (q.z as i128) + (q.w as i128) * (q.w as i128);
        let dlt: i128 = s - (crate::fixed::FX_ONE_SQ as i128);
        if -(crate::vecmath::QUAT_BAND as i128) <= dlt && dlt <= (crate::vecmath::QUAT_BAND
            as i128) {
            self.quat = q;
        } else {
            self.quat = quat_renormalize(&q);
        }
    }
}

/// The smaller of two integers.
pub open spec fn imin(a: int, b: int) -> int {
    if a <= b {
        a
    } else {
        b
    }
}

/// The larger of two integers.
pub open spec fn imax(a: int, b: int) -> int {
    if a >= b {
        a
    } else {
        b
    }
}

/// A vertex position is within the supported coordinate range.
pub open spec fn vert_bounded(v: GPUVertex) -> bool {
    &&& -COORD_MAX <= v.pos.x <= COORD_MAX
    &&& -COORD_MAX <= v.pos.y <= COORD_MAX
    &&& -COORD_MAX <= v.pos.z <= COORD_MAX
}

/// Every vertex of the set is within the supported coordinate range.
pub open spec fn verts_bounded(s: Seq<GPUVertex>) -> bool {
    forall|i: int| 0 <= i < s.len() ==> vert_bounded(#[trigger] s[i])
}

/// Least X coordinate of a non-empty vertex set.
pub open spec fn vmin_x(s: Seq<GPUVertex>) -> int
    decreases s.len(),
{
    if s.len() <= 1 {
        s[0].pos.x as int
    } else {
        imin(vmin_x(s.drop_last()), s.last().pos.x as int)
    }
}

/// Greatest X coordinate of a non-empty vertex set.
pub open spec fn vmax_x(s: Seq<GPUVertex>) -> int
    decreases s.len(),
{
    if s.len() <= 1 {
        s[0].pos.x as int
    } else {
        imax(vmax_x(s.drop_last()), s.last().pos.x as int)
    }
}

/// Least Y coordinate of a non-empty vertex set.
pub open spec fn vmin_y(s: Seq<GPUVertex>) -> int
    decreases s.len(),
{
    if s.len() <= 1 {
        s[0].pos.y as int
    } else {
        imin(vmin_y(s.drop_last()), s.last().pos.y as int)
    }
}

/// Greatest Y coordinate of a non-empty vertex set.
pub open spec fn vmax_y(s: Seq<GPUVertex>) -> int
    decreases s.len(),
{
    if s.len() <= 1 {
        s[0].pos.y as int
    } else {
        imax(vmax_y(s.drop_last()), s.last().pos.y as int)
    }
}

/// Least Z coordinate of a non-empty vertex set.
pub open spec fn vmin_z(s: Seq<GPUVertex>) -> int
    decreases s.len(),
{
    if s.len() <= 1 {
        s[0].pos.z as int
    } else {
        imin(vmin_z(s.drop_last()), s.last().pos.z as int)
    }
}

/// Greatest Z coordinate of a non-empty vertex set.
pub open spec fn vmax_z(s: Seq<GPUVertex>) -> int
    decreases s.len(),
{
    if s.len() <= 1 {
        s[0].pos.z as int
    } else {
        imax(vmax_z(s.drop_last()), s.last().pos.z as int)
    }
}

/// The largest per-axis extent of the vertex set's bounding box.
pub open spec fn fit_extent(s: Seq<GPUVertex>) -> int {
    imax(imax(vmax_x(s) - vmin_x(s), vmax_y(s) - vmin_y(s)), vmax_z(s) - vmin_z(s))
}

/// The extent, clamped away from zero so a degenerate (single-point)
/// model yields a finite, if extreme, scale instead of failing.
pub open spec fn fit_divisor(s: Seq<GPUVertex>) -> int {
    if fit_extent(s) < 1 {
        1
    } else {
        fit_extent(s)
    }
}

/// The extremes bound every element, and bounded elements bound the
/// extremes.
proof fn lemma_vminmax_bounds(s: Seq<GPUVertex>)
    requires
        s.len() > 0,
    ensures
        forall|i: int|
            0 <= i < s.len() ==> vmin_x(s) <= (#[trigger] s[i]).pos.x <= vmax_x(s) && vmin_y(s)
                <= s[i].pos.y <= vmax_y(s) && vmin_z(s) <= s[i].pos.z <= vmax_z(s),
        verts_bounded(s) ==> -COORD_MAX <= vmin_x(s) <= vmax_x(s) <= COORD_MAX && -COORD_MAX
            <= vmin_y(s) <= vmax_y(s) <= COORD_MAX && -COORD_MAX <= vmin_z(s) <= vmax_z(s)
            <= COORD_MAX,
    decreases s.len(),
{
    if s.len() > 1 {
        lemma_vminmax_bounds(s.drop_last());
        assert(forall|i: int| 0 <= i < s.len() - 1 ==> s.drop_last()[i] == #[trigger] s[i]);
        assert(verts_bounded(s) ==> verts_bounded(s.drop_last())) by {
            if verts_bounded(s) {
                assert(forall|i: int|
                    0 <= i < s.drop_last().len() ==> vert_bounded(#[trigger] s.drop_last()[i]))
                    by {
                    assert(forall|i: int|
                        0 <= i < s.drop_last().len() ==> s.drop_last()[i] == #[trigger] s[i]);
                }
            }
        }
    }
}

impl Camera {
    /// The bounds fit replaces the scale by `0.8 / extent` and the
    /// center by the box midpoint; nothing else changes.
    pub open spec fn spec_fit_verts(self, s: Seq<GPUVertex>) -> Camera {
        Camera {
            scale: fx_div_v(800_000, fit_divisor(s)) as i64,
            center: Vec3Fx {
                x: tdiv(vmin_x(s) + vmax_x(s), 2) as i64,
                y: tdiv(vmin_y(s) + vmax_y(s), 2) as i64,
                z: tdiv(vmin_z(s) + vmax_z(s), 2) as i64,
            },
            ..self
        }
    }

    /// Fit the camera to the bounding box of a non-empty vertex set:
    /// the scale becomes `0.8` over the largest per-axis extent (clamped
    /// away from zero for degenerate boxes) and the center becomes the
    /// box midpoint, so any model roughly fills 80% of the view volume.
    #[verifier::rlimit(30)]
    pub fn fit_verts(&mut self, verts: &Vec<GPUVertex>)
        requires
            old(self).wf(),
            verts@.len() > 0,
            verts_bounded(verts@),
        ensures
            *final(self) == old(self).spec_fit_verts(verts@),
            final(self).wf(),
    {
        let v0: GPUVertex = verts[0];
        let mut xmin: i64 = v0.pos.x;
        let mut xmax: i64 = v0.pos.x;
        let mut ymin: i64 = v0.pos.y;
        let mut ymax: i64 = v0.pos.y;
        let mut zmin: i64 = v0.pos.z;
        let mut zmax: i64 = v0.pos.z;
        proof {
            assert(verts@.take(1).len() == 1);
            assert(verts@.take(1)[0] == verts@[0]);
        }
        let mut i: usize = 1;
        while i < verts.len()
            invariant
                1 <= i <= verts@.len(),
                verts_bounded(verts@),
                xmin as int == vmin_x(verts@.take(i as int)),
                xmax as int == vmax_x(verts@.take(i as int)),
                ymin as int == vmin_y(verts@.take(i as int)),
                ymax as int == vmax_y(verts@.take(i as int)),
                zmin as int == vmin_z(verts@.take(i as int)),
                zmax as int == vmax_z(verts@.take(i as int)),
                -COORD_MAX <= xmin <= xmax <= COORD_MAX,
                -COORD_MAX <= ymin <= ymax <= COORD_MAX,
                -COORD_MAX <= zmin <= zmax <= COORD_MAX,
            decreases verts@.len() - i,
        {
            let v: GPUVertex = verts[i];
            if v.pos.x < xmin {
                xmin = v.pos.x;
            }
            if v.pos.x > xmax {
                xmax = v.pos.x;
            }
            if v.pos.y < ymin {
                ymin = v.pos.y;
            }
            if v.pos.y > ymax {
                ymax = v.pos.y;
            }
            if v.pos.z < zmin {
                zmin = v.pos.z;
            }
            if v.pos.z > zmax {
                zmax = v.pos.z;
            }
            proof {
                assert(verts@.take(i as int + 1).drop_last() =~= verts@.take(i as int));
                assert(verts@.take(i as int + 1).last() == verts@[i as int]);
            }
            i += 1;
        }
        proof {
            assert(verts@.take(verts@.len() as int) =~= verts@);
        }
        let dx: i64 = xmax - xmin;
        let dy: i64 = ymax - ymin;
        let dz: i64 = zmax - zmin;
        let mut d: i64 = dx;
        if dy > d {
            d = dy;
        }
        if dz > d {
            d = dz;
        }
        let dcl: i64 = if d < 1 {
            1
        } else {
            d
        };
        proof {
            lemma_tdiv_shrinks(800_000_000_000int, dcl as int);
            vstd::arithmetic::div_mod::lemma_div_is_ordered_by_denominator(
                800_000_000_000,
                dcl as int,
                10_000_000_000,
            );
            lemma_tdiv_mono_abs((xmin + xmax) as int, 10_000_000_000, 2);
            lemma_tdiv_mono_abs((ymin + ymax) as int, 10_000_000_000, 2);
            lemma_tdiv_mono_abs((zmin + zmax) as int, 10_000_000_000, 2);
        }
        let sc: i64 = fx_div(800_000, dcl);
        let cx: i64 = (xmin + xmax) / 2;
        let cy: i64 = (ymin + ymax) / 2;
        let cz: i64 = (zmin + zmax) / 2;
        self.scale = sc;
        self.center = Vec3Fx { x: cx, y: cy, z: cz };
    }
}

/// One camera state after a whole sequence of pointer moves.
pub open spec fn apply_moves(c: Camera, moves: Seq<Vec2Fx>) -> Camera
    decreases moves.len(),
{
    if moves.len() == 0 {
        c
    } else {
        apply_moves(c, moves.drop_last()).spec_mouse_move(moves.last())
    }
}

/// One pointer move preserves the camera invariant — in particular a
/// rotation drag leaves the orientation within the unit band, because
/// every composed rotation is renormalized.
pub proof fn lemma_mouse_move_wf(c: Camera, p: Vec2Fx)
    requires
        c.wf(),
        pos_wf(p),
    ensures
        c.spec_mouse_move(p).wf(),
{
    match c.mouse {
        MouseState::Unknown => {},
        MouseState::Free(_) => {},
        MouseState::Rotate(prev) => {
            let dq = QuatFx {
                x: fx_mul_v(p.y as int - prev.y as int, ROT_SENS as int) as i64,
                y: fx_mul_v(p.x as int - prev.x as int, ROT_SENS as int) as i64,
                z: 0,
                w: FX_ONE,
            };
            crate::vecmath::lemma_renorm_in_band(spec_quat_mul(dq, c.quat));
        },
        MouseState::Pan(_, _) => {},
    }
}

/// The orientation remains a unit quaternion (within the drift band)
/// after any sequence of pointer moves from a well-formed camera.
pub proof fn lemma_orientation_stays_unit(c: Camera, moves: Seq<Vec2Fx>)
    requires
        c.wf(),
        forall|i: int| 0 <= i < moves.len() ==> pos_wf(#[trigger] moves[i]),
    ensures
        apply_moves(c, moves).wf(),
        quat_in_band(apply_moves(c, moves).quat),
        999_990 * 999_990 <= quat_norm_sq(apply_moves(c, moves).quat) <= 1_000_010 * 1_000_010,
    decreases moves.len(),
{
    if moves.len() > 0 {
        lemma_orientation_stays_unit(c, moves.drop_last());
        lemma_mouse_move_wf(apply_moves(c, moves.drop_last()), moves.last());
    }
    crate::vecmath::lemma_band_norm_within_tolerance(apply_moves(c, moves).quat);
}

/// Setting the viewport size is idempotent: repeating `set_size` with
/// the same dimensions changes nothing, so the view matrix after the
/// second call equals the view matrix after the first.
pub proof fn lemma_set_size_idempotent(c: Camera, w: i64, h: i64)
    ensures
        c.spec_set_size(w, h).spec_set_size(w, h) == c.spec_set_size(w, h),
        c.spec_set_size(w, h).spec_set_size(w, h).spec_view() == c.spec_set_size(w, h).spec_view(),
{
}

/// Adopting an outside pose is idempotent: the resulting orientation is
/// a function of the incoming pose alone, so feeding the same pose twice
/// produces the same camera state.
pub proof fn lemma_set_orientation_idempotent(c: Camera, q: QuatFx)
    ensures
        c.spec_set_orientation(q).spec_set_orientation(q) == c.spec_set_orientation(q),
{
}

/// Scrolling is monotonic on the zoom scale: a positive delta never
/// lowers it and raises it strictly below the upper clamp; a negative
/// delta never raises it and lowers it strictly above the lower clamp;
/// and the scale always stays within `[1, SCALE_MAX]`, in particular
/// positive.
pub proof fn lemma_scroll_monotonic(s: int, delta: int)
    requires
        1 <= s <= SCALE_MAX as int,
    ensures
        1 <= Camera::scroll_scale_v(s, delta) <= SCALE_MAX as int,
        delta > 0 ==> Camera::scroll_scale_v(s, delta) >= s,
        delta > 0 && s < SCALE_MAX as int ==> Camera::scroll_scale_v(s, delta) > s,
        delta < 0 ==> Camera::scroll_scale_v(s, delta) <= s,
        delta < 0 && s > 1 ==> Camera::scroll_scale_v(s, delta) < s,
{
    if delta > 0 {
        let st = tdiv(delta, SCROLL_STEP_DIV as int);
        let step = if st < 1 {
            1
        } else {
            st
        };
        let p = s * (FX_ONE as int + step);
        assert(p >= s * 1_000_000 + s && p >= 0) by (nonlinear_arith)
            requires
                s >= 1,
                step >= 1,
                p == s * (1_000_000 + step),
        ;
        assert((s + 1) * 1_000_000 <= p + 1_000_000 - 1) by (nonlinear_arith)
            requires
                p >= s * 1_000_000 + s,
                s >= 1,
        ;
        vstd::arithmetic::div_mod::lemma_div_is_ordered(
            (s + 1) * 1_000_000,
            p + 1_000_000 - 1,
            1_000_000,
        );
        vstd::arithmetic::div_mod::lemma_div_multiples_vanish(s + 1, 1_000_000);
        assert((s + 1) * 1_000_000 == 1_000_000 * (s + 1)) by (nonlinear_arith);
        assert(cdiv(p, FX_ONE as int) >= s + 1);
    } else if delta < 0 {
        let f = tdiv((SCROLL_BASE as int) * (FX_ONE as int), (SCROLL_BASE as int) - delta);
        vstd::arithmetic::div_mod::lemma_div_pos_is_pos(
            1_200_000_000_000_000,
            (SCROLL_BASE as int) - delta,
        );
        vstd::arithmetic::div_mod::lemma_div_is_ordered_by_denominator(
            1_200_000_000_000_000,
            1_200_000_001,
            (SCROLL_BASE as int) - delta,
        );
        assert(0 <= f <= 999_999);
        let p = s * f;
        assert(0 <= p && p <= s * 1_000_000 - s) by (nonlinear_arith)
            requires
                0 <= f <= 999_999,
                s >= 1,
                p == s * f,
        ;
        assert(s * 1_000_000 - s <= (s - 1) * 1_000_000 + 999_999) by (nonlinear_arith)
            requires
                s >= 1,
        ;
        vstd::arithmetic::div_mod::lemma_div_is_ordered(
            p,
            (s - 1) * 1_000_000 + 999_999,
            1_000_000,
        );
        vstd::arithmetic::div_mod::lemma_div_multiples_vanish_fancy(s - 1, 999_999, 1_000_000);
        assert((s - 1) * 1_000_000 + 999_999 == 1_000_000 * (s - 1) + 999_999) by (nonlinear_arith);
        assert(tdiv(p, FX_ONE as int) <= s - 1);
    }
}

/// With the identity orientation the model matrix is exactly uniform
/// scale, handedness flip and recentering: diagonal `(s, s, -s)`,
/// translation `(-s*cx, -s*cy, s*cz)` in fixed-point products, and
/// zeros elsewhere.
pub proof fn lemma_model_identity_rotation(c: Camera)
    requires
        c.wf(),
        c.quat == quat_identity_v(),
    ensures
        ({
            let m = c.spec_model();
            &&& m.m00 as int == c.scale as int
            &&& m.m11 as int == c.scale as int
            &&& m.m22 as int == -(c.scale as int)
            &&& m.m01 == 0 && m.m02 == 0 && m.m10 == 0 && m.m12 == 0 && m.m20 == 0 && m.m21 == 0
            &&& m.m03 as int == -fx_mul_v(c.scale as int, c.center.x as int)
            &&& m.m13 as int == -fx_mul_v(c.scale as int, c.center.y as int)
            &&& m.m23 as int == fx_mul_v(c.scale as int, c.center.z as int)
            &&& m.m30 == 0 && m.m31 == 0 && m.m32 == 0 && m.m33 == FX_ONE
        }),
{
    let s = c.scale as int;
    crate::fixed::lemma_fx_mul_one(s);
    assert(fx_mul_v(0, 0) == 0);
    assert(fx_mul_v(0, 1_000_000) == 0);
    assert(fx_mul_v(s, 0) == 0) by {
        assert(s * 0 == 0) by (nonlinear_arith);
    }
    assert(rm00_v(c.quat) == 1_000_000);
    assert(rm11_v(c.quat) == 1_000_000);
    assert(rm22_v(c.quat) == 1_000_000);
    assert(rm01_v(c.quat) == 0 && rm02_v(c.quat) == 0 && rm10_v(c.quat) == 0 && rm12_v(c.quat) == 0
        && rm20_v(c.quat) == 0 && rm21_v(c.quat) == 0);
    lemma_fx_mul_bound(s, c.center.x as int, SCALE_MAX as int, COORD_MAX as int);
    lemma_fx_mul_bound(s, c.center.y as int, SCALE_MAX as int, COORD_MAX as int);
    lemma_fx_mul_bound(s, c.center.z as int, SCALE_MAX as int, COORD_MAX as int);
    assert(fx_mul_v(-s, c.center.z as int) == -fx_mul_v(s, c.center.z as int)) by {
        assert((-s) * (c.center.z as int) == -(s * (c.center.z as int))) by (nonlinear_arith);
    }
    assert(fx_mul_v(0, c.center.x as int) == 0);
    assert(fx_mul_v(0, c.center.y as int) == 0);
    assert(fx_mul_v(0, c.center.z as int) == 0);
}

/// After a bounds fit of a non-degenerate vertex set, the (exact
/// arithmetic) scaled, recentered positions form a box centered at the
/// origin to within one scale quantum per axis, whose largest dimension
/// is `0.8` to within `extent` raw squared units — the fixed-point
/// rounding of the scale.  Together with
/// [`lemma_model_identity_rotation`], this is the effect of
/// `model_matrix()` on every vertex for a freshly fitted camera.
pub proof fn lemma_fit_centers_and_scales(c: Camera, s: Seq<GPUVertex>)
    requires
        s.len() > 0,
        verts_bounded(s),
        fit_extent(s) >= 1,
    ensures
        ({
            let c2 = c.spec_fit_verts(s);
            let sc = c2.scale as int;
            let d = fit_extent(s);
            &&& 1 <= sc <= SCALE_MAX as int
            &&& 800_000_000_000 - d < sc * d <= 800_000_000_000
            &&& -sc <= sc * ((vmin_x(s) - c2.center.x) + (vmax_x(s) - c2.center.x)) <= sc
            &&& -sc <= sc * ((vmin_y(s) - c2.center.y) + (vmax_y(s) - c2.center.y)) <= sc
            &&& -sc <= sc * ((vmin_z(s) - c2.center.z) + (vmax_z(s) - c2.center.z)) <= sc
            &&& forall|i: int|
                0 <= i < s.len() ==> sc * (vmin_x(s) - c2.center.x) <= sc * ((
                #[trigger] s[i]).pos.x - c2.center.x) <= sc * (vmax_x(s) - c2.center.x) && sc * (
                vmin_y(s) - c2.center.y) <= sc * (s[i].pos.y - c2.center.y) <= sc * (vmax_y(s)
                - c2.center.y) && sc * (vmin_z(s) - c2.center.z) <= sc * (s[i].pos.z
                - c2.center.z) <= sc * (vmax_z(s) - c2.center.z)
        }),
{
    lemma_vminmax_bounds(s);
    let d = fit_extent(s);
    let sc0 = fx_div_v(800_000, d);
    assert(fit_divisor(s) == d);
    lemma_tdiv_shrinks(800_000_000_000, d);
    vstd::arithmetic::div_mod::lemma_div_is_ordered_by_denominator(800_000_000_000, d, 10_000_000_000);
    assert(1 <= sc0 <= 800_000_000_000);
    let c2 = c.spec_fit_verts(s);
    assert(c2.scale as int == sc0);
    // The scale times the extent comes within one extent of 0.8.
    vstd::arithmetic::div_mod::lemma_remainder_upper(800_000_000_000, d);
    vstd::arithmetic::div_mod::lemma_remainder_lower(800_000_000_000, d);
    assert(800_000_000_000int / d * d == sc0 * d) by (nonlinear_arith)
        requires
            sc0 == 800_000_000_000int / d,
    ;
    // The recentered extremes cancel to within one quantum.
    lemma_center_cancels(vmin_x(s), vmax_x(s), sc0);
    lemma_center_cancels(vmin_y(s), vmax_y(s), sc0);
    lemma_center_cancels(vmin_z(s), vmax_z(s), sc0);
    // Every vertex lies between the scaled extremes.
    assert forall|i: int| 0 <= i < s.len() implies sc0 * (vmin_x(s) - c2.center.x) <= sc0 * ((
    #[trigger] s[i]).pos.x - c2.center.x) <= sc0 * (vmax_x(s) - c2.center.x) && sc0 * (vmin_y(s)
        - c2.center.y) <= sc0 * (s[i].pos.y - c2.center.y) <= sc0 * (vmax_y(s) - c2.center.y)
        && sc0 * (vmin_z(s) - c2.center.z) <= sc0 * (s[i].pos.z - c2.center.z) <= sc0 * (vmax_z(s)
        - c2.center.z) by {
        vstd::arithmetic::mul::lemma_mul_left_inequality(
            sc0,
            vmin_x(s) - c2.center.x,
            s[i].pos.x - c2.center.x,
        );
        vstd::arithmetic::mul::lemma_mul_left_inequality(
            sc0,
            s[i].pos.x - c2.center.x,
            vmax_x(s) - c2.center.x,
        );
        vstd::arithmetic::mul::lemma_mul_left_inequality(
            sc0,
            vmin_y(s) - c2.center.y,
            s[i].pos.y - c2.center.y,
        );
        vstd::arithmetic::mul::lemma_mul_left_inequality(
            sc0,
            s[i].pos.y - c2.center.y,
            vmax_y(s) - c2.center.y,
        );
        vstd::arithmetic::mul::lemma_mul_left_inequality(
            sc0,
            vmin_z(s) - c2.center.z,
            s[i].pos.z - c2.center.z,
        );
        vstd::arithmetic::mul::lemma_mul_left_inequality(
            sc0,
            s[i].pos.z - c2.center.z,
            vmax_z(s) - c2.center.z,
        );
    }
}

/// Fitting to a bounded, non-empty vertex set preserves the camera
/// invariant.
pub proof fn lemma_spec_fit_wf(c: Camera, s: Seq<GPUVertex>)
    requires
        c.wf(),
        s.len() > 0,
        verts_bounded(s),
    ensures
        c.spec_fit_verts(s).wf(),
        c.spec_fit_verts(s).scale as int == fx_div_v(800_000, fit_divisor(s)),
        c.spec_fit_verts(s).center.x as int == tdiv(vmin_x(s) + vmax_x(s), 2),
        c.spec_fit_verts(s).center.y as int == tdiv(vmin_y(s) + vmax_y(s), 2),
        c.spec_fit_verts(s).center.z as int == tdiv(vmin_z(s) + vmax_z(s), 2),
{
    lemma_vminmax_bounds(s);
    let dcl = fit_divisor(s);
    lemma_tdiv_shrinks(800_000_000_000int, dcl);
    vstd::arithmetic::div_mod::lemma_div_is_ordered_by_denominator(
        800_000_000_000,
        dcl,
        10_000_000_000,
    );
    lemma_tdiv_mono_abs(vmin_x(s) + vmax_x(s), 10_000_000_000, 2);
    lemma_tdiv_mono_abs(vmin_y(s) + vmax_y(s), 10_000_000_000, 2);
    lemma_tdiv_mono_abs(vmin_z(s) + vmax_z(s), 10_000_000_000, 2);
}

/// The executable transform path lands within two raw quanta of the
/// exact scaled offset: for a freshly fitted camera (identity
/// orientation), `mat4_apply` of `model_matrix()` takes a vertex to
/// `scale * (pos - center)` per axis — Z negated by the handedness
/// flip — up to the fixed-point rounding of the two products involved.
/// Together with [`lemma_fit_centers_and_scales`] this pins the
/// transformed bounding box of the vertex set.
pub proof fn lemma_fit_apply_close(c: Camera, s: Seq<GPUVertex>, i: int)
    requires
        c.wf(),
        c.quat == quat_identity_v(),
        s.len() > 0,
        verts_bounded(s),
        0 <= i < s.len(),
    ensures
        ({
            let c2 = c.spec_fit_verts(s);
            let m = c2.spec_model();
            let sc = c2.scale as int;
            let v = s[i].pos;
            let ex = tdiv(sc * (v.x - c2.center.x), FX_ONE as int);
            let ey = tdiv(sc * (v.y - c2.center.y), FX_ONE as int);
            let ez = tdiv(sc * (v.z - c2.center.z), FX_ONE as int);
            &&& ex - 2 <= apply_x_v(m, v) <= ex + 2
            &&& ey - 2 <= apply_y_v(m, v) <= ey + 2
            &&& -ez - 2 <= apply_z_v(m, v) <= -ez + 2
        }),
{
    lemma_spec_fit_wf(c, s);
    lemma_vminmax_bounds(s);
    let c2 = c.spec_fit_verts(s);
    lemma_model_identity_rotation(c2);
    let m = c2.spec_model();
    let sc = c2.scale as int;
    let v = s[i].pos;
    let cx = c2.center.x as int;
    let cy = c2.center.y as int;
    let cz = c2.center.z as int;
    assert(fx_mul_v(0, v.y as int) == 0 && fx_mul_v(0, v.z as int) == 0 && fx_mul_v(
        0,
        v.x as int,
    ) == 0) by {
        assert(0 * (v.y as int) == 0 && 0 * (v.z as int) == 0 && 0 * (v.x as int) == 0)
            by (nonlinear_arith);
    }
    // The translation entries are the truncated products of the scale
    // with the (negated) center, so each applied coordinate is a sum of
    // two truncating quotients.
    assert(-fx_mul_v(sc, cx) == tdiv(-(sc * cx), FX_ONE as int));
    assert(-fx_mul_v(sc, cy) == tdiv(-(sc * cy), FX_ONE as int));
    assert(-fx_mul_v(sc, cz) == tdiv(-(sc * cz), FX_ONE as int));
    crate::fixed::lemma_tdiv_add_close(sc * (v.x as int), -(sc * cx), FX_ONE as int);
    crate::fixed::lemma_tdiv_add_close(sc * (v.y as int), -(sc * cy), FX_ONE as int);
    crate::fixed::lemma_tdiv_add_close(sc * (v.z as int), -(sc * cz), FX_ONE as int);
    assert(sc * (v.x as int) + (-(sc * cx)) == sc * (v.x - cx) && sc * (v.y as int) + (-(sc
        * cy)) == sc * (v.y - cy) && sc * (v.z as int) + (-(sc * cz)) == sc * (v.z - cz))
        by (nonlinear_arith);
    // The Z row is negated by the handedness flip.
    assert(fx_mul_v(-sc, v.z as int) == -fx_mul_v(sc, v.z as int)) by {
        assert((-sc) * (v.z as int) == -(sc * (v.z as int))) by (nonlinear_arith);
    }
    assert(apply_z_v(m, v) == -(fx_mul_v(sc, v.z as int) + tdiv(-(sc * cz), FX_ONE as int)));
}

/// A midpoint truncated to an integer splits the interval to within one
/// quantum: `(lo - mid) + (hi - mid)` is `-1`, `0` or `1`, so scaled by
/// `sc` it stays within `[-sc, sc]`.
proof fn lemma_center_cancels(lo: int, hi: int, sc: int)
    requires
        -COORD_MAX as int <= lo <= hi <= COORD_MAX as int,
        1 <= sc <= SCALE_MAX as int,
    ensures
        ({
            let mid = tdiv(lo + hi, 2) as i64;
            -sc <= sc * ((lo - mid) + (hi - mid)) <= sc
        }),
{
    let a = lo + hi;
    lemma_tdiv_mono_abs(a, 10_000_000_000, 2);
    let t = tdiv(a, 2);
    if a >= 0 {
        vstd::arithmetic::div_mod::lemma_fundamental_div_mod(a, 2);
        vstd::arithmetic::div_mod::lemma_remainder(a, 2);
        assert(a - 2 * t == a % 2);
    } else {
        vstd::arithmetic::div_mod::lemma_fundamental_div_mod(-a, 2);
        vstd::arithmetic::div_mod::lemma_remainder(-a, 2);
        assert((-a) - 2 * ((-a) / 2) == (-a) % 2);
        assert(a - 2 * t == -((-a) % 2));
    }
    assert(-1 <= a - 2 * t <= 1);
    let mid = t as i64;
    assert(mid as int == t);
    assert((lo - mid) + (hi - mid) == a - 2 * t);
    assert(-sc <= sc * (a - 2 * t) <= sc) by (nonlinear_arith)
        requires
            -1 <= a - 2 * t <= 1,
            1 <= sc,
    ;
}

/// The aspect ratio of a well-formed viewport lies within `[0.01, 100]`.
pub proof fn lemma_aspect_bounds(w: int, h: int)
    requires
        FX_ONE as int <= w <= DIM_MAX as int,
        FX_ONE as int <= h <= DIM_MAX as int,
        w <= 100 * h,
        h <= 100 * w,
    ensures
        10_000 <= fx_div_v(w, h) <= ASPECT_MAX as int,
{
    assert(w * 1_000_000 <= h * 100_000_000) by (nonlinear_arith)
        requires
            w <= 100 * h,
    ;
    assert(h * 10_000 <= w * 1_000_000) by (nonlinear_arith)
        requires
            h <= 100 * w,
    ;
    vstd::arithmetic::div_mod::lemma_div_is_ordered(w * 1_000_000, h * 100_000_000, h);
    vstd::arithmetic::div_mod::lemma_div_multiples_vanish(100_000_000, h);
    vstd::arithmetic::div_mod::lemma_div_is_ordered(h * 10_000, w * 1_000_000, h);
    vstd::arithmetic::div_mod::lemma_div_multiples_vanish(10_000, h);
}

/// Scale times rotation entry, with its bound.
fn smul(s: i64, r: i64) -> (p: i64)
    requires
        1 <= s <= SCALE_MAX,
        -ROT_MAX <= r <= ROT_MAX,
    ensures
        p as int == fx_mul_v(s as int, r as int),
        -MLIN_MAX <= p <= MLIN_MAX,
{
    proof {
        lemma_fx_mul_bound(s as int, r as int, SCALE_MAX as int, ROT_MAX as int);
    }
    fx_mul(s, r)
}

/// Model-matrix entry times center coordinate, with its bound.
fn tprod(m: i64, c: i64) -> (p: i64)
    requires
        -MLIN_MAX <= m <= MLIN_MAX,
        -COORD_MAX <= c <= COORD_MAX,
    ensures
        p as int == fx_mul_v(m as int, c as int),
        -16_400_000_000_000_000 <= p <= 16_400_000_000_000_000,
{
    proof {
        lemma_fx_mul_bound(m as int, c as int, MLIN_MAX as int, COORD_MAX as int);
    }
    fx_mul(m, c)
}

/// Aspect ratio times a linear model-matrix entry.
fn amul(a: i64, m: i64) -> (p: i64)
    requires
        0 <= a <= ASPECT_MAX,
        -MLIN_MAX <= m <= MLIN_MAX,
    ensures
        p as int == fx_mul_v(a as int, m as int),
{
    proof {
        lemma_fx_mul_bound(a as int, m as int, ASPECT_MAX as int, MLIN_MAX as int);
    }
    fx_mul(a, m)
}

/// Aspect ratio times a translation entry.
fn atmul(a: i64, t: i64) -> (p: i64)
    requires
        0 <= a <= ASPECT_MAX,
        -MTR_MAX <= t <= MTR_MAX,
    ensures
        p as int == fx_mul_v(a as int, t as int),
{
    proof {
        lemma_fx_mul_bound(a as int, t as int, ASPECT_MAX as int, MTR_MAX as int);
    }
    fx_mul(a, t)
}

/// A tenth of a model-matrix entry (the Z compression of the view).
fn zmul(m: i64) -> (p: i64)
    requires
        -MTR_MAX <= m <= MTR_MAX,
    ensures
        p as int == fx_mul_v(100_000, m as int),
        -4_920_000_000_000_000 <= p <= 4_920_000_000_000_000,
{
    proof {
        lemma_fx_mul_bound(100_000, m as int, 100_000, MTR_MAX as int);
    }
    fx_mul(100_000, m)
}

} // verus!
