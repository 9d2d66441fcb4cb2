//! Render/camera core of an interactive single-asset 3D viewer.
//!
//! All real-valued quantities (viewport sizes, scales, coordinates,
//! quaternion components) are carried as signed 64-bit fixed-point numbers
//! with six decimal places (see [`fixed::FX_ONE`]), so that every camera
//! computation is exact integer arithmetic and can be verified.
//!
//! The GPU itself, the window shell and the asset decoder live outside this
//! library; the library computes camera transforms, validates decoded scene
//! geometry, and produces plain descriptions of the render passes that a
//! thin unverified shell executes against the graphics device.

pub mod camera;
pub mod fixed;
pub mod geometry;
pub mod render;
pub mod session;
pub mod vecmath;
