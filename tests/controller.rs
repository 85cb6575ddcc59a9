use cloudmarch::controller::{
    CameraController, CameraMotion, InputEvent, MoveKey, PointerPosition, PoleZone,
};

fn key(key: MoveKey, pressed: bool) -> InputEvent {
    InputEvent::Key { key, pressed }
}

fn moved(x: i32, y: i32) -> InputEvent {
    InputEvent::CursorMoved { position: PointerPosition { x, y } }
}

fn button(pressed: bool) -> InputEvent {
    InputEvent::MouseButton { pressed }
}

#[test]
fn new_controller_is_idle() {
    let mut c = CameraController::new(0.02f32, 0.005f32);
    assert_eq!(c.move_speed(), 0.02f32);
    assert_eq!(c.rotation_speed(), 0.005f32);
    let m = c.update_camera(PoleZone::Clear);
    assert_eq!(m, CameraMotion { yaw: 0, pitch: 0, forward: 0, right: 0, up: 0 });
}

#[test]
fn movement_keys_are_consumed_and_set_axes() {
    let mut c = CameraController::new(1u8, 1u8);
    assert!(c.process_events(&key(MoveKey::Forward, true)));
    assert!(c.process_events(&key(MoveKey::Right, true)));
    assert!(c.process_events(&key(MoveKey::Down, true)));
    let m = c.update_camera(PoleZone::Clear);
    assert_eq!(m, CameraMotion { yaw: 0, pitch: 0, forward: 1, right: 1, up: -1 });
    assert!(c.process_events(&key(MoveKey::Forward, false)));
    assert!(c.process_events(&key(MoveKey::Backward, true)));
    assert!(c.process_events(&key(MoveKey::Left, true)));
    assert!(c.process_events(&key(MoveKey::Up, true)));
    let m = c.update_camera(PoleZone::Clear);
    assert_eq!(m, CameraMotion { yaw: 0, pitch: 0, forward: -1, right: 0, up: 0 });
}

#[test]
fn opposite_keys_cancel() {
    let mut c = CameraController::new(1u8, 1u8);
    c.process_events(&key(MoveKey::Forward, true));
    c.process_events(&key(MoveKey::Backward, true));
    let m = c.update_camera(PoleZone::Clear);
    assert_eq!(m.forward, 0);
}

#[test]
fn key_toggles_alone_never_rotate() {
    let mut c = CameraController::new(1u8, 1u8);
    let keys = [
        key(MoveKey::Forward, true),
        key(MoveKey::Left, true),
        key(MoveKey::Forward, false),
        key(MoveKey::Up, true),
        key(MoveKey::Down, true),
        key(MoveKey::Left, false),
    ];
    for e in keys.iter() {
        c.process_events(e);
        let m = c.update_camera(PoleZone::Clear);
        assert_eq!(m.yaw, 0);
        assert_eq!(m.pitch, 0);
    }
}

#[test]
fn drag_accumulates_rotation_with_zero_first_sample() {
    let mut c = CameraController::new(1u8, 1u8);
    assert!(c.process_events(&button(true)));
    assert!(c.process_events(&moved(100, 100)));
    assert_eq!(c.delta_horizontal_angle, 0);
    assert_eq!(c.delta_vertical_angle, 0);
    assert!(c.process_events(&moved(110, 95)));
    assert!(c.process_events(&moved(113, 90)));
    let m = c.update_camera(PoleZone::Clear);
    assert_eq!(m.yaw, -13);
    assert_eq!(m.pitch, 10);
    let m = c.update_camera(PoleZone::Clear);
    assert_eq!(m.yaw, 0);
    assert_eq!(m.pitch, 0);
}

#[test]
fn motion_without_drag_is_not_consumed() {
    let mut c = CameraController::new(1u8, 1u8);
    assert!(!c.process_events(&moved(5, 5)));
    assert!(!c.process_events(&moved(50, 50)));
    assert!(!c.process_events(&InputEvent::Other));
    let m = c.update_camera(PoleZone::Clear);
    assert_eq!(m.yaw, 0);
    assert_eq!(m.pitch, 0);
}

#[test]
fn release_before_frame_records_no_stale_motion() {
    let mut c = CameraController::new(1u8, 1u8);
    c.process_events(&button(true));
    c.process_events(&moved(0, 0));
    c.process_events(&moved(4, 0));
    c.process_events(&button(false));
    c.process_events(&moved(40, 40));
    c.process_events(&moved(80, 90));
    let m = c.update_camera(PoleZone::Clear);
    assert_eq!(m.yaw, -4);
    assert_eq!(m.pitch, 0);
}

#[test]
fn leaving_window_ends_drag() {
    let mut c = CameraController::new(1u8, 1u8);
    c.process_events(&button(true));
    c.process_events(&moved(0, 0));
    assert!(c.process_events(&InputEvent::CursorLeft));
    assert!(!c.is_mouse_pressed);
    assert!(!c.process_events(&moved(30, 30)));
    let m = c.update_camera(PoleZone::Clear);
    assert_eq!(m.yaw, 0);
    assert_eq!(m.pitch, 0);
}

#[test]
fn new_press_starts_from_fresh_sample() {
    let mut c = CameraController::new(1u8, 1u8);
    c.process_events(&button(true));
    c.process_events(&moved(0, 0));
    c.process_events(&button(false));
    c.process_events(&button(true));
    c.process_events(&moved(500, 500));
    let m = c.update_camera(PoleZone::Clear);
    assert_eq!(m.yaw, 0);
    assert_eq!(m.pitch, 0);
}

#[test]
fn pole_guard_near_zenith() {
    let mut c = CameraController::new(1u8, 1u8);
    c.process_events(&button(true));
    c.process_events(&moved(0, 10));
    c.process_events(&moved(0, 0));
    let m = c.update_camera(PoleZone::NearZenith);
    assert_eq!(m.pitch, 0);
    c.process_events(&moved(0, 7));
    let m = c.update_camera(PoleZone::NearZenith);
    assert_eq!(m.pitch, -7);
}

#[test]
fn pole_guard_near_nadir() {
    let mut c = CameraController::new(1u8, 1u8);
    c.process_events(&button(true));
    c.process_events(&moved(0, 0));
    c.process_events(&moved(0, 3));
    let m = c.update_camera(PoleZone::NearNadir);
    assert_eq!(m.pitch, 0);
    c.process_events(&moved(0, 0));
    let m = c.update_camera(PoleZone::NearNadir);
    assert_eq!(m.pitch, 3);
}

#[test]
fn restore_keeps_speeds_only() {
    let mut c = CameraController::new(0.02f32, 0.005f32);
    c.process_events(&key(MoveKey::Forward, true));
    c.process_events(&button(true));
    c.process_events(&moved(0, 0));
    c.process_events(&moved(9, 9));
    c.restore();
    assert_eq!(c.move_speed(), 0.02f32);
    assert_eq!(c.rotation_speed(), 0.005f32);
    assert!(!c.is_mouse_pressed);
    assert_eq!(c.last_mouse_position, None);
    let m = c.update_camera(PoleZone::Clear);
    assert_eq!(m, CameraMotion { yaw: 0, pitch: 0, forward: 0, right: 0, up: 0 });
}

#[test]
fn rotation_saturates_at_the_ends() {
    let mut c = CameraController::new(1u8, 1u8);
    c.delta_horizontal_angle = i64::MAX - 1;
    c.process_events(&button(true));
    c.process_events(&moved(100, 0));
    c.process_events(&moved(0, 0));
    assert_eq!(c.delta_horizontal_angle, i64::MAX);
}
