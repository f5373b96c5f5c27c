use camera_controllers::first_person::{FULL_TURN, QUARTER_TURN};
use camera_controllers::{Binding, Direction, FirstPerson, FirstPersonSettings, Move};
use input::{Button, Key};

fn key(k: Key) -> Button {
    Button::Keyboard(k)
}

fn wasd() -> FirstPerson {
    FirstPerson::new(FirstPersonSettings::keyboard_wasd())
}

#[test]
fn new_camera_is_at_rest() {
    let c = wasd();
    assert_eq!(c.yaw, 0);
    assert_eq!(c.pitch, 0);
    assert_eq!(c.velocity, 1);
    assert_eq!(c.direction, Direction { x: 0, y: 0, z: 0 });
}

#[test]
fn forward_then_move_faster() {
    let mut c = wasd();
    c.press(key(Key::W));
    assert_eq!(c.direction, Direction { x: -1, y: 0, z: 0 });
    assert_eq!(c.velocity, 1);
    c.press(key(Key::LCtrl));
    assert_eq!(c.velocity, 2);
    assert_eq!(c.direction, Direction { x: -1, y: 0, z: 0 });
    c.release(key(Key::LCtrl));
    assert_eq!(c.velocity, 1);
}

#[test]
fn releasing_forward_resumes_backward() {
    let mut c = wasd();
    c.press(key(Key::W));
    c.press(key(Key::S));
    assert_eq!(c.direction.x, 0);
    c.release(key(Key::W));
    assert_eq!(c.direction.x, 1);
    c.release(key(Key::S));
    assert_eq!(c.direction.x, 0);
}

#[test]
fn releasing_backward_resumes_forward() {
    let mut c = wasd();
    c.press(key(Key::W));
    c.press(key(Key::S));
    c.release(key(Key::S));
    assert_eq!(c.direction.x, -1);
    c.release(key(Key::W));
    assert_eq!(c.direction.x, 0);
}

#[test]
fn strafe_and_fly_pairs_resume_the_held_key() {
    let mut c = wasd();
    c.press(key(Key::A));
    c.press(key(Key::D));
    assert_eq!(c.direction.z, 0);
    c.release(key(Key::D));
    assert_eq!(c.direction.z, 1);
    c.press(key(Key::Space));
    c.press(key(Key::LShift));
    assert_eq!(c.direction.y, 0);
    c.release(key(Key::LShift));
    assert_eq!(c.direction.y, 1);
    c.release(key(Key::Space));
    assert_eq!(c.direction.y, 0);
}

#[test]
fn opposite_keys_cancel_in_either_order() {
    let mut c = wasd();
    c.press(key(Key::S));
    assert_eq!(c.direction.x, 1);
    c.press(key(Key::W));
    assert_eq!(c.direction.x, 0);
    c.release(key(Key::S));
    assert_eq!(c.direction.x, -1);
}

#[test]
fn forward_then_left_is_diagonal() {
    let mut c = wasd();
    c.press(key(Key::W));
    c.press(key(Key::A));
    assert_eq!(c.direction, Direction { x: -1, y: 0, z: 1 });
    assert!(c.direction.is_diagonal());
}

#[test]
fn releasing_left_resumes_right_on_a_diagonal() {
    let mut c = wasd();
    c.press(key(Key::W));
    c.press(key(Key::A));
    c.press(key(Key::D));
    assert_eq!(c.direction, Direction { x: -1, y: 0, z: 0 });
    assert!(!c.direction.is_diagonal());
    c.release(key(Key::A));
    assert_eq!(c.direction, Direction { x: -1, y: 0, z: -1 });
    assert!(c.direction.is_diagonal());
}

#[test]
fn diagonal_movement_is_flagged() {
    let mut c = wasd();
    c.press(key(Key::W));
    assert!(!c.direction.is_diagonal());
    c.press(key(Key::D));
    assert_eq!(c.direction, Direction { x: -1, y: 0, z: -1 });
    assert!(c.direction.is_diagonal());
    c.press(key(Key::Space));
    assert!(c.direction.is_diagonal());
    c.release(key(Key::D));
    assert!(!c.direction.is_diagonal());
    assert_eq!(c.direction, Direction { x: -1, y: 1, z: 0 });
}

#[test]
fn unbound_button_is_ignored() {
    let mut c = wasd();
    c.press(key(Key::W));
    c.press(key(Key::X));
    c.release(key(Key::X));
    assert_eq!(c.direction, Direction { x: -1, y: 0, z: 0 });
    assert_eq!(c.velocity, 1);
}

#[test]
fn yaw_turns_against_the_pointer() {
    let mut c = wasd();
    c.mouse_relative(1000, 0);
    assert_eq!(c.yaw, -1_000_000);
    c.mouse_relative(-3000, 0);
    assert_eq!(c.yaw, 2_000_000);
}

#[test]
fn yaw_wraps_past_a_full_turn() {
    let mut c = wasd();
    c.mouse_relative(2_880_001, 0);
    assert_eq!(c.yaw, -1000);
    let mut d = wasd();
    d.mouse_relative(-2_880_001, 0);
    assert_eq!(d.yaw, 1000);
}

#[test]
fn yaw_stays_bounded_over_many_deltas() {
    let mut c = wasd();
    for i in 0..200i64 {
        c.mouse_relative(1_234_567 * (i % 7 - 2), 0);
        assert!(-FULL_TURN < c.yaw && c.yaw < FULL_TURN);
    }
    c.mouse_relative(i64::MAX, i64::MIN);
    assert!(-FULL_TURN < c.yaw && c.yaw < FULL_TURN);
    assert_eq!(c.pitch, -QUARTER_TURN);
}

#[test]
fn pitch_is_clamped() {
    let mut c = wasd();
    c.mouse_relative(0, 100);
    assert_eq!(c.pitch, 100_000);
    c.mouse_relative(0, 1_000_000);
    assert_eq!(c.pitch, QUARTER_TURN);
    c.mouse_relative(0, -5_000_000);
    assert_eq!(c.pitch, -QUARTER_TURN);
    c.mouse_relative(0, 1000);
    assert_eq!(c.pitch, -QUARTER_TURN + 1_000_000);
}

#[test]
fn sensitivity_scales_the_turn() {
    let mut s = FirstPersonSettings::keyboard_wasd();
    s.mouse_sensitivity_horizontal = 2000;
    s.mouse_sensitivity_vertical = 500;
    let mut c = FirstPerson::new(s);
    c.mouse_relative(1000, 1000);
    assert_eq!(c.yaw, -2_000_000);
    assert_eq!(c.pitch, 500_000);
}

#[test]
fn presets_bind_their_keys() {
    let s = FirstPersonSettings::keyboard_wasd();
    assert!(s.move_forward_button == key(Key::W));
    assert!(s.move_backward_button == key(Key::S));
    assert!(s.strafe_left_button == key(Key::A));
    assert!(s.strafe_right_button == key(Key::D));
    assert!(s.fly_up_button == key(Key::Space));
    assert!(s.fly_down_button == key(Key::LShift));
    assert!(s.move_faster_button == key(Key::LCtrl));
    assert_eq!(s.speed_horizontal, 1000);
    assert_eq!(s.mouse_sensitivity_vertical, 1000);

    let e = FirstPersonSettings::keyboard_esdf();
    assert!(e.move_forward_button == key(Key::E));
    assert!(e.move_backward_button == key(Key::D));
    assert!(e.strafe_left_button == key(Key::S));
    assert!(e.strafe_right_button == key(Key::F));
    assert!(e.fly_up_button == key(Key::Space));
    assert!(e.fly_down_button == key(Key::Z));
    assert!(e.move_faster_button == key(Key::LShift));
    assert_eq!(e.speed_horizontal, 1000);

    let z = FirstPersonSettings::keyboard_zqsd();
    assert!(z.move_forward_button == key(Key::Z));
    assert!(z.move_backward_button == key(Key::S));
    assert!(z.strafe_left_button == key(Key::Q));
    assert!(z.strafe_right_button == key(Key::D));
    assert!(z.fly_up_button == key(Key::Space));
    assert!(z.fly_down_button == key(Key::LShift));
    assert!(z.move_faster_button == key(Key::LCtrl));
    assert_eq!(z.speed_vertical, 1000);
}

#[test]
fn binding_of_finds_the_action() {
    let s = FirstPersonSettings::keyboard_wasd();
    assert_eq!(s.binding_of(&key(Key::S)), Some(Binding::Moving(Move::Backward)));
    assert_eq!(s.binding_of(&key(Key::D)), Some(Binding::Moving(Move::StrafeRight)));
    assert_eq!(s.binding_of(&key(Key::LCtrl)), Some(Binding::MoveFaster));
    assert_eq!(s.binding_of(&key(Key::P)), None);
}

#[test]
fn moves_know_their_opposites() {
    assert_eq!(Move::Forward.opposite(), Move::Backward);
    assert_eq!(Move::StrafeLeft.opposite(), Move::StrafeRight);
    assert_eq!(Move::FlyDown.sign(), -1);
    assert_eq!(Move::StrafeLeft.sign(), 1);
}
