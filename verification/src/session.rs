//! Decision core of the event-poll shell.
//!
//! The shell polls the window surface and a remote camera-pose channel,
//! then hands each event to [`Session::step`], which updates the
//! tracked pointer and pose state and says what the shell must do:
//! nothing, publish an updated pose to the remote channel (dragging the
//! pointer nudges the remote camera's position), or apply a received
//! pose to the camera and redraw.  The camera itself is mutated only by
//! the shell, through [`crate::camera::Camera`]'s methods, so either
//! input source meets the camera at the same integration point.

use vstd::prelude::*;

use crate::camera::{pos_wf, POS_MAX};
use crate::fixed::{clamp_i128, clamp_v, fx_mul, fx_mul_v, lemma_fx_mul_bound};
use crate::vecmath::{QuatFx, Vec2Fx, Vec3Fx, QMUL_OUT_MAX};

verus! {

/// Largest magnitude of a remote pose position component.
pub const POSE_MAX: i64 = 1_000_000_000_000_000;

/// Drag sensitivity of the remote pose position: a tenth of the
/// pointer delta.
pub const DRAG_SENS: i64 = 100_000;

/// A camera pose as the remote channel carries it.
#[derive(Clone, Copy, Debug, PartialEq, Eq, Structural)]
pub struct Pose {
    pub position: Vec3Fx,
    pub orientation: QuatFx,
}

/// A pose is within the supported ranges.
pub open spec fn pose_wf(p: Pose) -> bool {
    &&& -POSE_MAX <= p.position.x <= POSE_MAX
    &&& -POSE_MAX <= p.position.y <= POSE_MAX
    &&& -POSE_MAX <= p.position.z <= POSE_MAX
    &&& -QMUL_OUT_MAX <= p.orientation.x <= QMUL_OUT_MAX
    &&& -QMUL_OUT_MAX <= p.orientation.y <= QMUL_OUT_MAX
    &&& -QMUL_OUT_MAX <= p.orientation.z <= QMUL_OUT_MAX
    &&& -QMUL_OUT_MAX <= p.orientation.w <= QMUL_OUT_MAX
}

/// One event the shell's poll can yield.
#[derive(Clone, Copy, Debug, PartialEq, Eq)]
pub enum SessionEvent {
    PointerUp,
    PointerDown(Vec2Fx),
    PointerMove(Vec2Fx),
    KeyUp,
    KeyDown,
    Resize(u32, u32),
    Frame,
    CameraPose(Pose),
}

/// What the shell must do after a step.
#[derive(Clone, Copy, Debug, PartialEq, Eq)]
pub enum SessionAction {
    /// Nothing beyond the state update.
    Nothing,
    /// Send the pose to the remote camera channel.
    PublishCamera(Pose),
    /// Apply the pose's orientation to the camera and redraw.
    ApplyPoseAndRedraw(Pose),
}

/// The session's tracked state.
pub struct Session {
    /// The pointer position while a button is down.
    pub pointer: Option<Vec2Fx>,
    /// The last pose seen on the remote channel.
    pub pose: Option<Pose>,
    /// Toggled by every pointer release; kept for the shell's backdrop
    /// hue switch.
    pub green: bool,
    /// Parity of pointer-move events seen: every second one is skipped.
    pub move_parity: bool,
}

/// Stored pointer and pose are within the supported ranges.
pub open spec fn session_wf(s: Session) -> bool {
    &&& match s.pointer {
        Some(p) => pos_wf(p),
        None => true,
    }
    &&& match s.pose {
        Some(p) => pose_wf(p),
        None => true,
    }
}

/// The pose after dragging the pointer by `(dx, dy)`: the position is
/// nudged by a tenth of the delta in the screen plane (clamped into
/// range), the orientation kept.
pub open spec fn spec_dragged_pose(p: Pose, dx: int, dy: int) -> Pose {
    Pose {
        position: Vec3Fx {
            x: clamp_v(
                p.position.x + fx_mul_v(dx, DRAG_SENS as int),
                -POSE_MAX as int,
                POSE_MAX as int,
            ) as i64,
            y: clamp_v(
                p.position.y + fx_mul_v(dy, DRAG_SENS as int),
                -POSE_MAX as int,
                POSE_MAX as int,
            ) as i64,
            z: p.position.z,
        },
        orientation: p.orientation,
    }
}

impl Session {
    /// A fresh session: nothing tracked yet.
    pub open spec fn spec_new() -> Session {
        Session { pointer: None, pose: None, green: false, move_parity: false }
    }

    /// Start a session.
    pub fn new() -> (s: Session)
        ensures
            s == Self::spec_new(),
            session_wf(s),
    {
        Session { pointer: None, pose: None, green: false, move_parity: false }
    }

    /// The state after one event.
    pub open spec fn spec_step(self, e: SessionEvent) -> (Session, SessionAction) {
        match e {
            SessionEvent::PointerUp => (
                Session { pointer: None, green: !self.green, ..self },
                SessionAction::Nothing,
            ),
            SessionEvent::PointerDown(p) => (
                Session { pointer: Some(p), ..self },
                SessionAction::Nothing,
            ),
            SessionEvent::PointerMove(p) => {
                let parity = !self.move_parity;
                if !parity {
                    (Session { move_parity: parity, ..self }, SessionAction::Nothing)
                } else {
                    match (self.pointer, self.pose) {
                        (Some(prev), Some(cam)) => {
                            let np = spec_dragged_pose(
                                cam,
                                prev.x as int - p.x as int,
                                prev.y as int - p.y as int,
                            );
                            (
                                Session {
                                    pointer: Some(p),
                                    pose: Some(np),
                                    move_parity: parity,
                                    ..self
                                },
                                SessionAction::PublishCamera(np),
                            )
                        },
                        _ => (
                            Session { move_parity: parity, ..self },
                            SessionAction::Nothing,
                        ),
                    }
                }
            },
            SessionEvent::CameraPose(p) => (
                Session { pose: Some(p), ..self },
                SessionAction::ApplyPoseAndRedraw(p),
            ),
            _ => (self, SessionAction::Nothing),
        }
    }

    /// React to one polled event.  A pointer release drops the tracked
    /// position and flips the hue toggle; a press stores the position;
    /// every second move is skipped, and a processed move with a known
    /// pointer and pose drags the remote pose and publishes it; a
    /// received pose is stored and handed back for the camera; keys,
    /// resizes and frame ticks decide nothing here.
    pub fn step(&mut self, e: SessionEvent) -> (act: SessionAction)
        requires
            session_wf(*old(self)),
            match e {
                SessionEvent::PointerDown(p) => pos_wf(p),
                SessionEvent::PointerMove(p) => pos_wf(p),
                SessionEvent::CameraPose(p) => pose_wf(p),
                _ => true,
            },
        ensures
            (*final(self), act) == old(self).spec_step(e),
            session_wf(*final(self)),
    {
        match e {
            SessionEvent::PointerUp => {
                self.pointer = None;
                self.green = !self.green;
                SessionAction::Nothing
            },
            SessionEvent::PointerDown(p) => {
                self.pointer = Some(p);
                SessionAction::Nothing
            },
            SessionEvent::PointerMove(p) => {
                let parity: bool = !self.move_parity;
                self.move_parity = parity;
                if !parity {
                    return SessionAction::Nothing;
                }
                match (self.pointer, self.pose) {
                    (Some(prev), Some(cam)) => {
                        proof {
                            lemma_fx_mul_bound(
                                prev.x as int - p.x as int,
                                DRAG_SENS as int,
                                2 * POS_MAX as int,
                                DRAG_SENS as int,
                            );
                            lemma_fx_mul_bound(
                                prev.y as int - p.y as int,
                                DRAG_SENS as int,
                                2 * POS_MAX as int,
                                DRAG_SENS as int,
                            );
                        }
                        let dx: i64 = prev.x - p.x;
                        let dy: i64 = prev.y - p.y;
                        let nx: i64 = clamp_i128(
                            (cam.position.x as i128) + (fx_mul(dx, DRAG_SENS) as i128),
                            -POSE_MAX,
                            POSE_MAX,
                        );
                        let ny: i64 = clamp_i128(
                            (cam.position.y as i128) + (fx_mul(dy, DRAG_SENS) as i128),
                            -POSE_MAX,
                            POSE_MAX,
                        );
                        let np = Pose {
                            position: Vec3Fx { x: nx, y: ny, z: cam.position.z },
                            orientation: cam.orientation,
                        };
                        self.pointer = Some(p);
                        self.pose = Some(np);
                        SessionAction::PublishCamera(np)
                    },
                    _ => SessionAction::Nothing,
                }
            },
            SessionEvent::CameraPose(p) => {
                self.pose = Some(p);
                SessionAction::ApplyPoseAndRedraw(p)
            },
            _ => SessionAction::Nothing,
        }
    }
}

} // verus!
