//! Frame orchestration, as verified plain data.
//!
//! The GPU device lives outside this library.  Here the orchestrator
//! owns the camera, the depth-target description and the two renderers,
//! reacts to resizes and wheel events, and on each redraw produces a
//! [`RenderPlan`]: first the backdrop pass, which clears the color
//! attachment to the background color and the depth attachment to the
//! far value, then the model pass, which loads both attachments and
//! draws the geometry depth-tested under the camera's combined
//! transform.  The unverified shell executes the plan against the
//! device inside one command buffer, which makes the backdrop's writes
//! visible to the model pass.

use vstd::prelude::*;

use crate::camera::{verts_bounded, Camera};
use crate::fixed::FX_ONE;
use crate::geometry::Geometry;
use crate::vecmath::Mat4Fx;

verus! {

/// The surface color formats the shell may report.
#[derive(Clone, Copy, Debug, PartialEq, Eq, Structural)]
pub enum TextureFormat {
    Bgra8UnormSrgb,
    Bgra8Unorm,
    Rgba8UnormSrgb,
    Rgba8Unorm,
    Other,
}

/// The one depth format used here: 32-bit float depth.
#[derive(Clone, Copy, Debug, PartialEq, Eq, Structural)]
pub enum DepthFormat {
    Depth32Float,
}

/// An RGBA color; `FX_ONE` is full intensity of a channel.
#[derive(Clone, Copy, Debug, PartialEq, Eq, Structural)]
pub struct Rgba {
    pub r: i64,
    pub g: i64,
    pub b: i64,
    pub a: i64,
}

/// What a pass does with the color attachment's prior contents.
#[derive(Clone, Copy, Debug, PartialEq, Eq, Structural)]
pub enum ColorLoadOp {
    Clear(Rgba),
    Load,
}

/// What a pass does with the depth attachment's prior contents.
#[derive(Clone, Copy, Debug, PartialEq, Eq, Structural)]
pub enum DepthLoadOp {
    Clear(i64),
    Load,
}

/// The depth comparison a pass tests fragments with.
#[derive(Clone, Copy, Debug, PartialEq, Eq, Structural)]
pub enum DepthCompare {
    Always,
    Less,
}

/// The draw call a pass issues.
#[derive(Clone, Copy, Debug, PartialEq, Eq, Structural)]
pub enum DrawCall {
    /// A non-indexed draw of the given vertex count.
    Plain { vertex_count: u32 },
    /// One indexed draw over the whole index range.
    Indexed { index_count: u32 },
}

/// One render pass, as plain data for the shell to execute.
#[derive(Clone, Copy, Debug, PartialEq, Eq, Structural)]
pub struct PassDesc {
    pub color_load: ColorLoadOp,
    pub depth_load: DepthLoadOp,
    pub depth_compare: DepthCompare,
    pub depth_write: bool,
    pub draw: DrawCall,
}

/// The backdrop renderer: one fixed full-screen pipeline.
pub struct Backdrop {
    pub format: TextureFormat,
}

/// The pass the backdrop always issues: clear the color to the
/// background green, clear the depth to the far value `0.0` (reversed
/// depth), pass every fragment, and draw two full-screen triangles.
pub open spec fn backdrop_pass() -> PassDesc {
    PassDesc {
        color_load: ColorLoadOp::Clear(Rgba { r: 0, g: FX_ONE, b: 0, a: FX_ONE }),
        depth_load: DepthLoadOp::Clear(0),
        depth_compare: DepthCompare::Always,
        depth_write: true,
        draw: DrawCall::Plain { vertex_count: 6 },
    }
}

impl Backdrop {
    /// Build the backdrop for a surface of the given color format.
    pub fn new(format: TextureFormat) -> (b: Backdrop)
        ensures
            b.format == format,
    {
        Backdrop { format }
    }

    /// The backdrop's render pass; always the same.
    pub fn draw(&self) -> (p: PassDesc)
        ensures
            p == backdrop_pass(),
    {
        PassDesc {
            color_load: ColorLoadOp::Clear(Rgba { r: 0, g: FX_ONE, b: 0, a: FX_ONE }),
            depth_load: DepthLoadOp::Clear(0),
            depth_compare: DepthCompare::Always,
            depth_write: true,
            draw: DrawCall::Plain { vertex_count: 6 },
        }
    }
}

/// The model renderer: owns the flattened geometry and its pipeline
/// configuration.
pub struct Model {
    pub format: TextureFormat,
    pub geometry: Geometry,
}

/// The model's render pass together with the vertex transform the shell
/// must upload to the pipeline's uniform.
#[derive(Clone, Copy, Debug, PartialEq, Eq, Structural)]
pub struct ModelPass {
    pub desc: PassDesc,
    pub transform: Mat4Fx,
}

impl Model {
    /// The pass the model issues for a camera: load the backdrop's
    /// color and depth, test `Less`, write depth, and draw the whole
    /// index range once under `view * model`.
    pub open spec fn spec_draw(self, c: Camera) -> ModelPass {
        ModelPass {
            desc: PassDesc {
                color_load: ColorLoadOp::Load,
                depth_load: DepthLoadOp::Load,
                depth_compare: DepthCompare::Less,
                depth_write: true,
                draw: DrawCall::Indexed {
                    index_count: self.geometry.indices@.len() as u32,
                },
            },
            transform: c.spec_mat(),
        }
    }

    /// Take ownership of the geometry for a surface of the given format.
    pub fn new(format: TextureFormat, geometry: Geometry) -> (m: Model)
        ensures
            m.format == format,
            m.geometry == geometry,
    {
        Model { format, geometry }
    }

    /// The model's render pass under the given camera.
    pub fn draw(&self, camera: &Camera) -> (p: ModelPass)
        requires
            camera.wf(),
            self.geometry.indices@.len() <= u32::MAX,
        ensures
            p == self.spec_draw(*camera),
    {
        let index_count: u32 = self.geometry.indices.len() as u32;
        ModelPass {
            desc: PassDesc {
                color_load: ColorLoadOp::Load,
                depth_load: DepthLoadOp::Load,
                depth_compare: DepthCompare::Less,
                depth_write: true,
                draw: DrawCall::Indexed { index_count },
            },
            transform: camera.mat(),
        }
    }
}

/// The depth target to (re)create: always one 2D mip level, one sample,
/// 32-bit float depth, exactly the surface's size.  GPU images are
/// fixed-size, so a resize means destroy-and-recreate, never mutation.
#[derive(Clone, Copy, Debug, PartialEq, Eq, Structural)]
pub struct DepthDesc {
    pub width: u32,
    pub height: u32,
    pub mip_level_count: u32,
    pub sample_count: u32,
    pub format: DepthFormat,
}

/// One frame: the backdrop pass is recorded strictly before the model
/// pass, in the same command buffer.
#[derive(Clone, Copy, Debug, PartialEq, Eq, Structural)]
pub struct RenderPlan {
    pub backdrop: PassDesc,
    pub model: ModelPass,
}

/// A wheel delta as the windowing shell reports it, in raw fixed-point
/// units: whole lines or pixels times `FX_ONE`.
#[derive(Clone, Copy, Debug, PartialEq, Eq, Structural)]
pub enum ScrollDelta {
    LineDelta(i64, i64),
    PixelDelta(i64, i64),
}

/// A device-level input event.
#[derive(Clone, Copy, Debug, PartialEq, Eq, Structural)]
pub enum DeviceEvent {
    MouseWheel(ScrollDelta),
    Other,
}

/// The frame orchestrator: owns the camera, the two renderers and the
/// depth-target description, and reacts to resize, wheel and redraw.
pub struct App {
    pub format: TextureFormat,
    pub width: u32,
    pub height: u32,
    pub depth: DepthDesc,
    pub backdrop: Backdrop,
    pub model: Model,
    pub camera: Camera,
}

impl App {
    /// The orchestrator invariant: a sane viewport, the camera sized to
    /// it, and the depth target exactly the surface's size.
    pub open spec fn wf(self) -> bool {
        &&& 1 <= self.width <= 1_000_000
        &&& 1 <= self.height <= 1_000_000
        &&& self.width <= 100 * self.height
        &&& self.height <= 100 * self.width
        &&& self.camera.wf()
        &&& self.camera.width == self.width * 1_000_000
        &&& self.camera.height == self.height * 1_000_000
        &&& self.depth == Self::spec_depth_desc(self.width, self.height)
        &&& self.model.geometry.indices@.len() <= u32::MAX
    }

    /// The depth target for a surface of the given pixel size.
    pub open spec fn spec_depth_desc(width: u32, height: u32) -> DepthDesc {
        DepthDesc {
            width,
            height,
            mip_level_count: 1,
            sample_count: 1,
            format: DepthFormat::Depth32Float,
        }
    }

    /// Describe the depth target to create for the given surface size.
    pub fn rebuild_depth_(width: u32, height: u32) -> (d: DepthDesc)
        ensures
            d == Self::spec_depth_desc(width, height),
    {
        DepthDesc {
            width,
            height,
            mip_level_count: 1,
            sample_count: 1,
            format: DepthFormat::Depth32Float,
        }
    }

    /// Build the orchestrator: depth target and renderers for the
    /// surface's format, and a camera immediately fitted to the loaded
    /// geometry.
    pub fn new(width: u32, height: u32, format: TextureFormat, geometry: Geometry) -> (a: App)
        requires
            1 <= width <= 1_000_000,
            1 <= height <= 1_000_000,
            width <= 100 * height,
            height <= 100 * width,
            geometry.vertices@.len() > 0,
            verts_bounded(geometry.vertices@),
            geometry.indices@.len() <= u32::MAX,
        ensures
            a.format == format,
            a.width == width,
            a.height == height,
            a.depth == Self::spec_depth_desc(width, height),
            a.backdrop.format == format,
            a.model.format == format,
            a.model.geometry == geometry,
            a.camera == Camera::spec_new(
                ((width as int) * 1_000_000) as i64,
                ((height as int) * 1_000_000) as i64,
            ).spec_fit_verts(geometry.vertices@),
            a.wf(),
    {
        let depth: DepthDesc = Self::rebuild_depth_(width, height);
        let backdrop: Backdrop = Backdrop::new(format);
        let mut camera: Camera = Camera::new(
            (width as i64) * 1_000_000,
            (height as i64) * 1_000_000,
        );
        camera.fit_verts(&geometry.vertices);
        let model: Model = Model::new(format, geometry);
        App { format, width, height, depth, backdrop, model, camera }
    }

    /// A resize updates the stored size, the camera's viewport and the
    /// depth target description; nothing else.
    pub open spec fn spec_resize(self, width: u32, height: u32) -> App {
        App {
            width,
            height,
            depth: Self::spec_depth_desc(width, height),
            camera: self.camera.spec_set_size(
                ((width as int) * 1_000_000) as i64,
                ((height as int) * 1_000_000) as i64,
            ),
            ..self
        }
    }

    /// React to a surface resize: the surface is reconfigured by the
    /// shell; here the camera viewport is updated and the depth target
    /// is rebuilt at the new size before this returns, so the next
    /// redraw reads a consistent size.
    pub fn resize(&mut self, width: u32, height: u32)
        requires
            old(self).wf(),
            1 <= width <= 1_000_000,
            1 <= height <= 1_000_000,
            width <= 100 * height,
            height <= 100 * width,
        ensures
            *final(self) == old(self).spec_resize(width, height),
            final(self).wf(),
    {
        self.width = width;
        self.height = height;
        self.camera.set_size((width as i64) * 1_000_000, (height as i64) * 1_000_000);
        self.depth = Self::rebuild_depth_(width, height);
    }

    /// The plan for one frame: backdrop first, model second.
    pub open spec fn spec_redraw(self) -> RenderPlan {
        RenderPlan { backdrop: backdrop_pass(), model: self.model.spec_draw(self.camera) }
    }

    /// Produce the plan for one frame.  The backdrop pass clears color
    /// and depth; the model pass loads both, so executing the plan in
    /// order inside one command buffer leaves uncovered pixels at the
    /// backdrop's clear depth and covered pixels at the model's depth.
    pub fn redraw(&self) -> (plan: RenderPlan)
        requires
            self.wf(),
        ensures
            plan == self.spec_redraw(),
            plan.backdrop.color_load is Clear,
            plan.backdrop.depth_load == DepthLoadOp::Clear(0),
            plan.model.desc.color_load == ColorLoadOp::Load,
            plan.model.desc.depth_load == DepthLoadOp::Load,
    {
        RenderPlan { backdrop: self.backdrop.draw(), model: self.model.draw(&self.camera) }
    }

    /// A wheel event forwards its vertical pixel delta to the camera's
    /// zoom; every other device event is ignored.
    pub open spec fn spec_device_event(self, e: DeviceEvent) -> App {
        match e {
            DeviceEvent::MouseWheel(ScrollDelta::PixelDelta(_, y)) => App {
                camera: self.camera.spec_mouse_scroll(y as int),
                ..self
            },
            _ => self,
        }
    }

    /// React to a device-level input event.
    pub fn device_event(&mut self, e: DeviceEvent)
        requires
            old(self).wf(),
        ensures
            *final(self) == old(self).spec_device_event(e),
            final(self).wf(),
    {
        match e {
            DeviceEvent::MouseWheel(ScrollDelta::PixelDelta(_, y)) => {
                self.camera.mouse_scroll(y);
            },
            _ => {},
        }
    }
}

/// Resizing is a round trip: resizing twice to the same dimensions is
/// the same as resizing once — in particular the depth target has
/// identical dimensions — and after a resize the depth target matches
/// the surface and the camera's viewport is `(w, h)` pixels, so its
/// aspect ratio is `w / h`.
pub proof fn lemma_resize_round_trip(a: App, w: u32, h: u32)
    requires
        1 <= w <= 1_000_000,
        1 <= h <= 1_000_000,
        w <= 100 * h,
        h <= 100 * w,
    ensures
        a.spec_resize(w, h).spec_resize(w, h) == a.spec_resize(w, h),
        a.spec_resize(w, h).depth.width == w,
        a.spec_resize(w, h).depth.height == h,
        a.spec_resize(w, h).camera.width == (w as int) * 1_000_000,
        a.spec_resize(w, h).camera.height == (h as int) * 1_000_000,
        a.spec_resize(w, h).camera.spec_view().m11 as int == crate::fixed::fx_div_v(
            (w as int) * 1_000_000,
            (h as int) * 1_000_000,
        ),
{
    crate::camera::lemma_aspect_bounds((w as int) * 1_000_000, (h as int) * 1_000_000);
}

} // verus!
