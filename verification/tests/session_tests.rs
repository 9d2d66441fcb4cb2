use meshview::session::{Pose, Session, SessionAction, SessionEvent};
use meshview::vecmath::{QuatFx, Vec2Fx, Vec3Fx};

const FX: i64 = 1_000_000;

fn pose(x: i64, y: i64, z: i64) -> Pose {
    Pose {
        position: Vec3Fx { x, y, z },
        orientation: QuatFx { x: 0, y: 0, z: 0, w: FX },
    }
}

#[test]
fn pointer_down_then_up_tracks_and_clears() {
    let mut s = Session::new();
    assert_eq!(
        s.step(SessionEvent::PointerDown(Vec2Fx { x: 5 * FX, y: 6 * FX })),
        SessionAction::Nothing
    );
    assert_eq!(s.pointer, Some(Vec2Fx { x: 5 * FX, y: 6 * FX }));
    assert!(!s.green);
    assert_eq!(s.step(SessionEvent::PointerUp), SessionAction::Nothing);
    assert_eq!(s.pointer, None);
    assert!(s.green);
}

#[test]
fn received_pose_is_stored_and_applied() {
    let mut s = Session::new();
    let p = pose(FX, 2 * FX, 3 * FX);
    assert_eq!(
        s.step(SessionEvent::CameraPose(p)),
        SessionAction::ApplyPoseAndRedraw(p)
    );
    assert_eq!(s.pose, Some(p));
}

#[test]
fn drag_publishes_nudged_pose_and_every_second_move_is_skipped() {
    let mut s = Session::new();
    s.step(SessionEvent::CameraPose(pose(10 * FX, 20 * FX, 30 * FX)));
    s.step(SessionEvent::PointerDown(Vec2Fx { x: 100 * FX, y: 100 * FX }));
    // First move is processed: delta (old - new) = (-10px, 0), nudged by
    // a tenth: position.x moves by -1.0.
    let act = s.step(SessionEvent::PointerMove(Vec2Fx { x: 110 * FX, y: 100 * FX }));
    let expected = pose(9 * FX, 20 * FX, 30 * FX);
    assert_eq!(act, SessionAction::PublishCamera(expected));
    assert_eq!(s.pose, Some(expected));
    assert_eq!(s.pointer, Some(Vec2Fx { x: 110 * FX, y: 100 * FX }));
    // Second move is skipped entirely.
    let act = s.step(SessionEvent::PointerMove(Vec2Fx { x: 200 * FX, y: 100 * FX }));
    assert_eq!(act, SessionAction::Nothing);
    assert_eq!(s.pointer, Some(Vec2Fx { x: 110 * FX, y: 100 * FX }));
    // Third move is processed again, against the stored position.
    let act = s.step(SessionEvent::PointerMove(Vec2Fx { x: 110 * FX, y: 90 * FX }));
    assert_eq!(act, SessionAction::PublishCamera(pose(9 * FX, 21 * FX, 30 * FX)));
}

#[test]
fn moves_without_pose_or_pointer_decide_nothing() {
    let mut s = Session::new();
    assert_eq!(
        s.step(SessionEvent::PointerMove(Vec2Fx { x: FX, y: FX })),
        SessionAction::Nothing
    );
    assert_eq!(s.pointer, None);
    // Keys, resizes and frame ticks decide nothing here.
    assert_eq!(s.step(SessionEvent::KeyDown), SessionAction::Nothing);
    assert_eq!(s.step(SessionEvent::KeyUp), SessionAction::Nothing);
    assert_eq!(s.step(SessionEvent::Resize(800, 600)), SessionAction::Nothing);
    assert_eq!(s.step(SessionEvent::Frame), SessionAction::Nothing);
}
