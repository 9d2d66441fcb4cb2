use meshview::geometry::{build_geometry, MeshPrimitive, Topology};
use meshview::geometry::{ColorFx, Geometry};
use meshview::render::{
    App, ColorLoadOp, DepthCompare, DepthFormat, DepthLoadOp, DeviceEvent, DrawCall, Rgba,
    ScrollDelta, TextureFormat,
};
use meshview::vecmath::Vec3Fx;

const FX: i64 = 1_000_000;

fn tetra_geometry() -> Geometry {
    let positions = vec![
        Vec3Fx { x: 0, y: 0, z: 0 },
        Vec3Fx { x: 2 * FX, y: 0, z: 0 },
        Vec3Fx { x: 0, y: 2 * FX, z: 0 },
        Vec3Fx { x: 0, y: 0, z: 2 * FX },
    ];
    let normals = vec![Vec3Fx { x: 0, y: 0, z: FX }; 4];
    let colors = vec![ColorFx { r: FX, g: FX, b: FX, a: FX }; 4];
    let indices = vec![0, 1, 2, 0, 1, 3, 0, 2, 3, 1, 2, 3];
    let prim = MeshPrimitive { positions, normals, colors, indices, topology: Topology::Triangles };
    build_geometry(&vec![prim]).unwrap()
}

#[test]
fn new_app_fits_camera_and_builds_depth_target() {
    let app = App::new(640, 480, TextureFormat::Bgra8UnormSrgb, tetra_geometry());
    assert_eq!(app.camera.scale, 400_000);
    assert_eq!(app.camera.center, Vec3Fx { x: FX, y: FX, z: FX });
    assert_eq!(app.depth.width, 640);
    assert_eq!(app.depth.height, 480);
    assert_eq!(app.depth.mip_level_count, 1);
    assert_eq!(app.depth.sample_count, 1);
    assert_eq!(app.depth.format, DepthFormat::Depth32Float);
}

#[test]
fn resize_round_trip_gives_identical_depth_target_and_aspect() {
    let mut app = App::new(640, 480, TextureFormat::Bgra8Unorm, tetra_geometry());
    app.resize(800, 600);
    let d1 = app.depth;
    let v1 = app.camera.view_matrix();
    app.resize(800, 600);
    assert_eq!(app.depth, d1);
    assert_eq!(app.depth.width, 800);
    assert_eq!(app.depth.height, 600);
    assert_eq!(app.camera.view_matrix(), v1);
    // Aspect ratio is exactly 800/600 in fixed point (truncated).
    assert_eq!(v1.m11, 1_333_333);
}

#[test]
fn redraw_plan_clears_then_loads() {
    let app = App::new(640, 480, TextureFormat::Rgba8Unorm, tetra_geometry());
    let plan = app.redraw();
    // Backdrop first: clears color to green and depth to the far value,
    // passes every fragment, draws the two full-screen triangles.
    assert_eq!(
        plan.backdrop.color_load,
        ColorLoadOp::Clear(Rgba { r: 0, g: FX, b: 0, a: FX })
    );
    assert_eq!(plan.backdrop.depth_load, DepthLoadOp::Clear(0));
    assert_eq!(plan.backdrop.depth_compare, DepthCompare::Always);
    assert!(plan.backdrop.depth_write);
    assert_eq!(plan.backdrop.draw, DrawCall::Plain { vertex_count: 6 });
    // Model second: loads what the backdrop wrote and depth-tests.
    assert_eq!(plan.model.desc.color_load, ColorLoadOp::Load);
    assert_eq!(plan.model.desc.depth_load, DepthLoadOp::Load);
    assert_eq!(plan.model.desc.depth_compare, DepthCompare::Less);
    assert!(plan.model.desc.depth_write);
    assert_eq!(plan.model.desc.draw, DrawCall::Indexed { index_count: 12 });
}

#[test]
fn redraw_transform_is_view_times_model() {
    let app = App::new(640, 480, TextureFormat::Other, tetra_geometry());
    let plan = app.redraw();
    assert_eq!(plan.model.transform, app.camera.mat());
    // Row 0 of the combined transform is the model row; row 1 carries
    // the aspect ratio; row 2 is compressed and pushed forward.
    let mm = app.camera.model_matrix();
    assert_eq!(plan.model.transform.m00, mm.m00);
    assert_eq!(plan.model.transform.m23, mm.m23 / 10 + 500_000);
}

#[test]
fn wheel_event_zooms_other_events_do_not() {
    let mut app = App::new(640, 480, TextureFormat::Bgra8Unorm, tetra_geometry());
    let s0 = app.camera.scale;
    app.device_event(DeviceEvent::Other);
    assert_eq!(app.camera.scale, s0);
    // Only pixel deltas reach the camera, as in the device-event path.
    app.device_event(DeviceEvent::MouseWheel(ScrollDelta::LineDelta(0, 3 * FX)));
    assert_eq!(app.camera.scale, s0);
    app.device_event(DeviceEvent::MouseWheel(ScrollDelta::PixelDelta(0, 120 * FX)));
    assert!(app.camera.scale > s0);
}

#[test]
fn rebuild_depth_always_describes_one_2d_float_level() {
    let d = App::rebuild_depth_(31, 17);
    assert_eq!((d.width, d.height), (31, 17));
    assert_eq!((d.mip_level_count, d.sample_count), (1, 1));
    assert_eq!(d.format, DepthFormat::Depth32Float);
}
