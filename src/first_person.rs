//! A first person camera that flies through the world.
//!
//! Angles are whole numbers of a fixed unit: `HALF_TURN` units make π
//! radians. Pointer deltas and the four speed and sensitivity settings are
//! given in thousandths, so a pointer delta of one at sensitivity one turns
//! the camera by π / 1440 radians.
use vstd::prelude::*;

use crate::buttons::same_button;
use input::{Button, Key};

verus! {

/// π radians, in angle units.
pub const HALF_TURN: i64 = 1_440_000_000;

/// 2π radians, in angle units: the yaw stays strictly between its negation
/// and itself.
pub const FULL_TURN: i64 = 2_880_000_000;

/// π / 2 radians, in angle units: the bound of the pitch on either side.
pub const QUARTER_TURN: i64 = 720_000_000;

/// The number one, in thousandths.
pub const ONE: i64 = 1000;

/// A movement that a held key asks for.
#[derive(Clone, Copy, PartialEq, Eq, Structural, Debug)]
pub enum Move {
    Forward,
    Backward,
    StrafeLeft,
    StrafeRight,
    FlyUp,
    FlyDown,
}

/// The movement on the same axis in the other direction.
pub open spec fn opposite(m: Move) -> Move {
    match m {
        Move::Forward => Move::Backward,
        Move::Backward => Move::Forward,
        Move::StrafeLeft => Move::StrafeRight,
        Move::StrafeRight => Move::StrafeLeft,
        Move::FlyUp => Move::FlyDown,
        Move::FlyDown => Move::FlyUp,
    }
}

/// The value that a movement gives its axis of the direction.
pub open spec fn move_sign(m: Move) -> int {
    match m {
        Move::Forward => -1,
        Move::Backward => 1,
        Move::StrafeLeft => 1,
        Move::StrafeRight => -1,
        Move::FlyUp => 1,
        Move::FlyDown => -1,
    }
}

impl Move {
    /// The movement on the same axis in the other direction.
    pub fn opposite(self) -> (r: Move)
        ensures
            r == opposite(self),
    {
        match self {
            Move::Forward => Move::Backward,
            Move::Backward => Move::Forward,
            Move::StrafeLeft => Move::StrafeRight,
            Move::StrafeRight => Move::StrafeLeft,
            Move::FlyUp => Move::FlyDown,
            Move::FlyDown => Move::FlyUp,
        }
    }

    /// The value that this movement gives its axis of the direction.
    pub fn sign(self) -> (r: i8)
        ensures
            r == move_sign(self),
    {
        match self {
            Move::Forward | Move::StrafeRight | Move::FlyDown => -1,
            Move::Backward | Move::StrafeLeft | Move::FlyUp => 1,
        }
    }
}

/// The set of movement keys that are held.
#[derive(Clone, Copy, PartialEq, Eq, Structural, Debug)]
pub struct MoveKeys {
    pub forward: bool,
    pub backward: bool,
    pub strafe_left: bool,
    pub strafe_right: bool,
    pub fly_up: bool,
    pub fly_down: bool,
}

impl MoveKeys {
    /// Whether the key of `m` is held.
    pub open spec fn has(self, m: Move) -> bool {
        match m {
            Move::Forward => self.forward,
            Move::Backward => self.backward,
            Move::StrafeLeft => self.strafe_left,
            Move::StrafeRight => self.strafe_right,
            Move::FlyUp => self.fly_up,
            Move::FlyDown => self.fly_down,
        }
    }

    /// The set with the key of `m` held or not, as `held` says, and the
    /// others as they are.
    pub open spec fn with(self, m: Move, held: bool) -> MoveKeys {
        match m {
            Move::Forward => MoveKeys { forward: held, ..self },
            Move::Backward => MoveKeys { backward: held, ..self },
            Move::StrafeLeft => MoveKeys { strafe_left: held, ..self },
            Move::StrafeRight => MoveKeys { strafe_right: held, ..self },
            Move::FlyUp => MoveKeys { fly_up: held, ..self },
            Move::FlyDown => MoveKeys { fly_down: held, ..self },
        }
    }

    /// No key held.
    pub fn empty() -> (r: MoveKeys)
        ensures
            forall|m: Move| !r.has(m),
            !r.forward && !r.backward && !r.strafe_left && !r.strafe_right && !r.fly_up && !r.fly_down,
    {
        MoveKeys {
            forward: false,
            backward: false,
            strafe_left: false,
            strafe_right: false,
            fly_up: false,
            fly_down: false,
        }
    }

    /// Whether the key of `m` is held.
    pub fn contains(&self, m: Move) -> (r: bool)
        ensures
            r == self.has(m),
    {
        match m {
            Move::Forward => self.forward,
            Move::Backward => self.backward,
            Move::StrafeLeft => self.strafe_left,
            Move::StrafeRight => self.strafe_right,
            Move::FlyUp => self.fly_up,
            Move::FlyDown => self.fly_down,
        }
    }

    /// Marks the key of `m` held or not.
    pub fn set(&mut self, m: Move, held: bool)
        ensures
            *final(self) == old(self).with(m, held),
    {
        match m {
            Move::Forward => self.forward = held,
            Move::Backward => self.backward = held,
            Move::StrafeLeft => self.strafe_left = held,
            Move::StrafeRight => self.strafe_right = held,
            Move::FlyUp => self.fly_up = held,
            Move::FlyDown => self.fly_down = held,
        }
    }
}


/// The direction of travel, one sign per axis of the camera: `x` is the
/// forward axis (forward is -1), `y` the vertical axis (up is 1) and `z`
/// the lateral axis (strafing left is 1).
///
/// When `x` and `z` are both nonzero the camera moves diagonally, and each
/// of the two is scaled by 1/√2 so that it moves no faster than along one
/// axis.
#[derive(Clone, Copy, PartialEq, Eq, Structural, Debug)]
pub struct Direction {
    pub x: i8,
    pub y: i8,
    pub z: i8,
}

impl Direction {
    /// Each component is -1, 0 or 1.
    pub open spec fn wf(self) -> bool {
        -1 <= self.x <= 1 && -1 <= self.y <= 1 && -1 <= self.z <= 1
    }

    /// The component of the axis that `m` moves along.
    pub open spec fn axis(self, m: Move) -> i8 {
        match m {
            Move::Forward | Move::Backward => self.x,
            Move::FlyUp | Move::FlyDown => self.y,
            Move::StrafeLeft | Move::StrafeRight => self.z,
        }
    }

    /// The direction with the axis that `m` moves along set to `v`.
    pub open spec fn with_axis(self, m: Move, v: i8) -> Direction {
        match m {
            Move::Forward | Move::Backward => Direction { x: v, ..self },
            Move::FlyUp | Move::FlyDown => Direction { y: v, ..self },
            Move::StrafeLeft | Move::StrafeRight => Direction { z: v, ..self },
        }
    }

    /// Whether the camera moves along the forward and the lateral axis at
    /// once.
    pub open spec fn diagonal(self) -> bool {
        self.x != 0 && self.z != 0
    }

    /// The square of the divisor of the forward and lateral components:
    /// 2 on a diagonal, else 1.
    pub open spec fn planar_divisor_sq(self) -> int {
        if self.diagonal() {
            2
        } else {
            1
        }
    }

    /// No movement.
    pub fn zero() -> (r: Direction)
        ensures
            r == (Direction { x: 0, y: 0, z: 0 }),
    {
        Direction { x: 0, y: 0, z: 0 }
    }

    /// Whether the forward and lateral components are each scaled by 1/√2.
    pub fn is_diagonal(&self) -> (r: bool)
        ensures
            r == self.diagonal(),
    {
        self.x != 0 && self.z != 0
    }

    /// Sets the axis that `m` moves along to `v`.
    pub fn set_axis(&mut self, m: Move, v: i8)
        ensures
            *final(self) == old(self).with_axis(m, v),
    {
        match m {
            Move::Forward | Move::Backward => self.x = v,
            Move::FlyUp | Move::FlyDown => self.y = v,
            Move::StrafeLeft | Move::StrafeRight => self.z = v,
        }
    }
}

/// Moving diagonally is no faster than moving along one axis: whenever the
/// forward or the lateral component is nonzero, the two, each divided by
/// the square root of `planar_divisor_sq`, make a vector of length one; the
/// divisor is 2 exactly when both are nonzero, so each is scaled by 1/√2.
pub proof fn lemma_diagonal_speed(d: Direction)
    requires
        d.wf(),
    ensures
        (d.x != 0 || d.z != 0) ==> d.x * d.x + d.z * d.z == d.planar_divisor_sq(),
        d.planar_divisor_sq() == 2 <==> (d.x != 0 && d.z != 0),
{
    assert(d.x * d.x == if d.x == 0 { 0int } else { 1int }) by (nonlinear_arith)
        requires
            -1 <= d.x <= 1,
    ;
    assert(d.z * d.z == if d.z == 0 { 0int } else { 1int }) by (nonlinear_arith)
        requires
            -1 <= d.z <= 1,
    ;
}

/// What a bound button does.
#[derive(Clone, Copy, PartialEq, Eq, Structural, Debug)]
pub enum Binding {
    Moving(Move),
    MoveFaster,
}

/// The key bindings of a first person camera, and its speeds.
///
/// The speeds and sensitivities are in thousandths: `ONE` is one unit per
/// second, or a multiplier of one.
#[derive(Clone, Copy)]
pub struct FirstPersonSettings {
    /// Which button to press to move forward.
    pub move_forward_button: Button,
    /// Which button to press to move backward.
    pub move_backward_button: Button,
    /// Which button to press to strafe left.
    pub strafe_left_button: Button,
    /// Which button to press to strafe right.
    pub strafe_right_button: Button,
    /// Which button to press to fly up.
    pub fly_up_button: Button,
    /// Which button to press to fly down.
    pub fly_down_button: Button,
    /// Which button to press to move faster.
    pub move_faster_button: Button,
    /// The horizontal movement speed, in thousandths of a unit per second.
    pub speed_horizontal: i64,
    /// The vertical movement speed, in thousandths of a unit per second.
    pub speed_vertical: i64,
    /// The multiplier of horizontal pointer movements, in thousandths.
    pub mouse_sensitivity_horizontal: i64,
    /// The multiplier of vertical pointer movements, in thousandths.
    pub mouse_sensitivity_vertical: i64,
}

impl FirstPersonSettings {
    /// What button `b` does: the first binding, in the order of the fields,
    /// whose button it is.
    pub open spec fn binding(self, b: Button) -> Option<Binding> {
        if b == self.move_forward_button {
            Some(Binding::Moving(Move::Forward))
        } else if b == self.move_backward_button {
            Some(Binding::Moving(Move::Backward))
        } else if b == self.strafe_left_button {
            Some(Binding::Moving(Move::StrafeLeft))
        } else if b == self.strafe_right_button {
            Some(Binding::Moving(Move::StrafeRight))
        } else if b == self.fly_up_button {
            Some(Binding::Moving(Move::FlyUp))
        } else if b == self.fly_down_button {
            Some(Binding::Moving(Move::FlyDown))
        } else if b == self.move_faster_button {
            Some(Binding::MoveFaster)
        } else {
            None
        }
    }

    /// The speeds and sensitivities that every preset has: one each.
    pub open spec fn unit_speeds(self) -> bool {
        self.speed_horizontal == ONE && self.speed_vertical == ONE
            && self.mouse_sensitivity_horizontal == ONE && self.mouse_sensitivity_vertical == ONE
    }

    /// What button `b` does.
    pub fn binding_of(&self, b: &Button) -> (r: Option<Binding>)
        ensures
            r == self.binding(*b),
    {
        if same_button(b, &self.move_forward_button) {
            Some(Binding::Moving(Move::Forward))
        } else if same_button(b, &self.move_backward_button) {
            Some(Binding::Moving(Move::Backward))
        } else if same_button(b, &self.strafe_left_button) {
            Some(Binding::Moving(Move::StrafeLeft))
        } else if same_button(b, &self.strafe_right_button) {
            Some(Binding::Moving(Move::StrafeRight))
        } else if same_button(b, &self.fly_up_button) {
            Some(Binding::Moving(Move::FlyUp))
        } else if same_button(b, &self.fly_down_button) {
            Some(Binding::Moving(Move::FlyDown))
        } else if same_button(b, &self.move_faster_button) {
            Some(Binding::MoveFaster)
        } else {
            None
        }
    }

    /// Settings with the given keys and speeds of one.
    fn with_keys(
        forward: Key,
        backward: Key,
        left: Key,
        right: Key,
        up: Key,
        down: Key,
        faster: Key,
    ) -> (r: FirstPersonSettings)
        ensures
            r.move_forward_button == Button::Keyboard(forward),
            r.move_backward_button == Button::Keyboard(backward),
            r.strafe_left_button == Button::Keyboard(left),
            r.strafe_right_button == Button::Keyboard(right),
            r.fly_up_button == Button::Keyboard(up),
            r.fly_down_button == Button::Keyboard(down),
            r.move_faster_button == Button::Keyboard(faster),
            r.unit_speeds(),
    {
        FirstPersonSettings {
            move_forward_button: Button::Keyboard(forward),
            move_backward_button: Button::Keyboard(backward),
            strafe_left_button: Button::Keyboard(left),
            strafe_right_button: Button::Keyboard(right),
            fly_up_button: Button::Keyboard(up),
            fly_down_button: Button::Keyboard(down),
            move_faster_button: Button::Keyboard(faster),
            speed_horizontal: ONE,
            speed_vertical: ONE,
            mouse_sensitivity_horizontal: ONE,
            mouse_sensitivity_vertical: ONE,
        }
    }

    /// W, S, A and D to move and strafe, Space and left Shift to fly up and
    /// down, left Ctrl to move faster; speeds of one.
    pub fn keyboard_wasd() -> (r: FirstPersonSettings)
        ensures
            r.move_forward_button == Button::Keyboard(Key::W),
            r.move_backward_button == Button::Keyboard(Key::S),
            r.strafe_left_button == Button::Keyboard(Key::A),
            r.strafe_right_button == Button::Keyboard(Key::D),
            r.fly_up_button == Button::Keyboard(Key::Space),
            r.fly_down_button == Button::Keyboard(Key::LShift),
            r.move_faster_button == Button::Keyboard(Key::LCtrl),
            r.unit_speeds(),
    {
        Self::with_keys(Key::W, Key::S, Key::A, Key::D, Key::Space, Key::LShift, Key::LCtrl)
    }

    /// E, D, S and F to move and strafe, Space and Z to fly up and down,
    /// left Shift to move faster; speeds of one.
    pub fn keyboard_esdf() -> (r: FirstPersonSettings)
        ensures
            r.move_forward_button == Button::Keyboard(Key::E),
            r.move_backward_button == Button::Keyboard(Key::D),
            r.strafe_left_button == Button::Keyboard(Key::S),
            r.strafe_right_button == Button::Keyboard(Key::F),
            r.fly_up_button == Button::Keyboard(Key::Space),
            r.fly_down_button == Button::Keyboard(Key::Z),
            r.move_faster_button == Button::Keyboard(Key::LShift),
            r.unit_speeds(),
    {
        Self::with_keys(Key::E, Key::D, Key::S, Key::F, Key::Space, Key::Z, Key::LShift)
    }

    /// Z, S, Q and D (an AZERTY layout) to move and strafe, Space and left
    /// Shift to fly up and down, left Ctrl to move faster; speeds of one.
    pub fn keyboard_zqsd() -> (r: FirstPersonSettings)
        ensures
            r.move_forward_button == Button::Keyboard(Key::Z),
            r.move_backward_button == Button::Keyboard(Key::S),
            r.strafe_left_button == Button::Keyboard(Key::Q),
            r.strafe_right_button == Button::Keyboard(Key::D),
            r.fly_up_button == Button::Keyboard(Key::Space),
            r.fly_down_button == Button::Keyboard(Key::LShift),
            r.move_faster_button == Button::Keyboard(Key::LCtrl),
            r.unit_speeds(),
    {
        Self::with_keys(Key::Z, Key::S, Key::Q, Key::D, Key::Space, Key::LShift, Key::LCtrl)
    }
}

/// The remainder of `a` divided by `m`, with the sign of `a`, as Rust's `%`
/// gives it.
pub open spec fn trunc_rem(a: int, m: int) -> int {
    if a >= 0 {
        a % m
    } else {
        -((-a) % m)
    }
}

/// `v` held within `lo..=hi`.
pub open spec fn clamp(v: int, lo: int, hi: int) -> int {
    if v < lo {
        lo
    } else if v > hi {
        hi
    } else {
        v
    }
}

/// An axis agrees with the two keys that move along it, the one giving -1
/// and the one giving 1, when its value is the sign of the sum of the held
/// keys' signs: the sign of the one held key, and 0 when both or neither
/// are held.
pub open spec fn axis_agrees(v: i8, minus_held: bool, plus_held: bool) -> bool {
    (v == -1 && minus_held && !plus_held) || (v == 1 && plus_held && !minus_held) || (v == 0
        && minus_held == plus_held)
}

/// A flying first person camera: its orientation, the direction it moves
/// in, its speed multiplier and the movement keys that are held. Where it
/// stands is kept by the caller, which moves it along `direction` as time
/// passes.
pub struct FirstPerson {
    /// The key bindings and speeds.
    pub settings: FirstPersonSettings,
    /// The yaw, in angle units.
    pub yaw: i64,
    /// The pitch, in angle units.
    pub pitch: i64,
    /// The direction of travel.
    pub direction: Direction,
    /// The speed multiplier: 1, or 2 while the move-faster button is held.
    pub velocity: u8,
    /// The movement keys that are held.
    pub keys: MoveKeys,
}

impl FirstPerson {
    /// The yaw lies strictly between -2π and 2π, the pitch within
    /// -π/2..=π/2, the multiplier is 1 or 2, and each axis of the direction
    /// agrees with the keys that move along it.
    pub open spec fn wf(self) -> bool {
        -FULL_TURN < self.yaw < FULL_TURN
        && -QUARTER_TURN <= self.pitch <= QUARTER_TURN
        && (self.velocity == 1 || self.velocity == 2)
        && self.direction.wf()
        && axis_agrees(self.direction.x, self.keys.forward, self.keys.backward)
        && axis_agrees(self.direction.y, self.keys.fly_down, self.keys.fly_up)
        && axis_agrees(self.direction.z, self.keys.strafe_right, self.keys.strafe_left)
    }

    /// The camera after button `b` is pressed: a movement key is marked
    /// held, and its axis takes the sign of the sum of the held keys on it:
    /// its own sign, or 0 if the opposite key is held too; the move-faster
    /// button sets the multiplier to 2; any other button changes nothing.
    pub open spec fn pressed(self, b: Button) -> FirstPerson {
        match self.settings.binding(b) {
            Some(Binding::Moving(m)) => {
                let keys = self.keys.with(m, true);
                let v: i8 = if keys.has(opposite(m)) {
                    0
                } else {
                    move_sign(m) as i8
                };
                FirstPerson { direction: self.direction.with_axis(m, v), keys, ..self }
            },
            Some(Binding::MoveFaster) => FirstPerson { velocity: 2, ..self },
            None => self,
        }
    }

    /// The camera after button `b` is released: a movement key is marked
    /// not held, and its axis takes the sign of the opposite key if that
    /// one is still held, else 0; the move-faster button sets the
    /// multiplier back to 1; any other button changes nothing.
    pub open spec fn released(self, b: Button) -> FirstPerson {
        match self.settings.binding(b) {
            Some(Binding::Moving(m)) => {
                let keys = self.keys.with(m, false);
                let v: i8 = if keys.has(opposite(m)) {
                    move_sign(opposite(m)) as i8
                } else {
                    0
                };
                FirstPerson { direction: self.direction.with_axis(m, v), keys, ..self }
            },
            Some(Binding::MoveFaster) => FirstPerson { velocity: 1, ..self },
            None => self,
        }
    }

    /// The camera after the pointer moved by `dx` and `dy` thousandths: the
    /// horizontal turn, `dx` times the horizontal sensitivity, is taken
    /// from the yaw, which then wraps to its remainder by 2π; the vertical
    /// turn, `dy` times the vertical sensitivity, is added to the pitch,
    /// which is then held within -π/2..=π/2.
    pub open spec fn turned(self, dx: int, dy: int) -> FirstPerson {
        FirstPerson {
            yaw: trunc_rem(self.yaw - dx * self.settings.mouse_sensitivity_horizontal, FULL_TURN as int) as i64,
            pitch: clamp(self.pitch + dy * self.settings.mouse_sensitivity_vertical, -QUARTER_TURN as int, QUARTER_TURN as int) as i64,
            ..self
        }
    }

    /// A camera at rest, looking along yaw 0 and pitch 0.
    pub fn new(settings: FirstPersonSettings) -> (r: FirstPerson)
        ensures
            r.settings == settings,
            r.yaw == 0,
            r.pitch == 0,
            r.direction == (Direction { x: 0, y: 0, z: 0 }),
            r.velocity == 1,
            forall|m: Move| !r.keys.has(m),
            !r.keys.forward && !r.keys.backward && !r.keys.strafe_left && !r.keys.strafe_right
                && !r.keys.fly_up && !r.keys.fly_down,
            r.wf(),
    {
        FirstPerson {
            settings,
            yaw: 0,
            pitch: 0,
            direction: Direction::zero(),
            velocity: 1,
            keys: MoveKeys::empty(),
        }
    }

    /// Handles the press of `button`.
    pub fn press(&mut self, button: Button)
        ensures
            *final(self) == old(self).pressed(button),
            old(self).wf() ==> final(self).wf(),
    {
        match self.settings.binding_of(&button) {
            Some(Binding::Moving(m)) => {
                self.keys.set(m, true);
                let v: i8 = if self.keys.contains(m.opposite()) {
                    0
                } else {
                    m.sign()
                };
                self.direction.set_axis(m, v);
            },
            Some(Binding::MoveFaster) => {
                self.velocity = 2;
            },
            None => {},
        }
    }

    /// Handles the release of `button`.
    pub fn release(&mut self, button: Button)
        ensures
            *final(self) == old(self).released(button),
            old(self).wf() ==> final(self).wf(),
    {
        match self.settings.binding_of(&button) {
            Some(Binding::Moving(m)) => {
                self.keys.set(m, false);
                let rev = m.opposite();
                let v: i8 = if self.keys.contains(rev) {
                    rev.sign()
                } else {
                    0
                };
                self.direction.set_axis(m, v);
            },
            Some(Binding::MoveFaster) => {
                self.velocity = 1;
            },
            None => {},
        }
    }

    /// Handles a relative pointer movement of `dx` and `dy`, in thousandths
    /// of a pointer unit.
    pub fn mouse_relative(&mut self, dx: i64, dy: i64)
        ensures
            *final(self) == old(self).turned(dx as int, dy as int),
            -FULL_TURN < final(self).yaw < FULL_TURN,
            -QUARTER_TURN <= final(self).pitch <= QUARTER_TURN,
            old(self).wf() ==> final(self).wf(),
    {
        let full: i128 = FULL_TURN as i128;
        let turn_h: i128 = wide_product(dx, self.settings.mouse_sensitivity_horizontal);
        let yaw: i128 = self.yaw as i128 - turn_h;
        let wrapped: i128 = if yaw >= 0 {
            yaw % full
        } else {
            -((-yaw) % full)
        };
        self.yaw = wrapped as i64;
        let turn_v: i128 = wide_product(dy, self.settings.mouse_sensitivity_vertical);
        let pitch: i128 = self.pitch as i128 + turn_v;
        let quarter: i128 = QUARTER_TURN as i128;
        let held: i128 = if pitch < -quarter {
            -quarter
        } else if pitch > quarter {
            quarter
        } else {
            pitch
        };
        self.pitch = held as i64;
    }
}

/// Opposite keys cancel, and releasing one resumes the other: when `a`
/// moves one way along an axis and `b` the other way, pressing both, in
/// either order, leaves the axis at 0, and then releasing either leaves it
/// at the sign of the key still held, whatever the state before.
pub proof fn lemma_release_resumes_opposite(s: FirstPerson, a: Button, b: Button, m: Move)
    requires
        s.settings.binding(a) == Some(Binding::Moving(m)),
        s.settings.binding(b) == Some(Binding::Moving(opposite(m))),
    ensures
        s.pressed(a).pressed(b).direction.axis(m) == 0,
        s.pressed(b).pressed(a).direction.axis(m) == 0,
        s.pressed(a).pressed(b).released(a).direction.axis(m) == move_sign(opposite(m)),
        s.pressed(a).pressed(b).released(b).direction.axis(m) == move_sign(m),
        s.pressed(b).pressed(a).released(a).direction.axis(m) == move_sign(opposite(m)),
        s.pressed(b).pressed(a).released(b).direction.axis(m) == move_sign(m),
{
}

/// In a well-formed camera the direction never holds a stale value: an
/// axis is the sign of the one key of its two that is held, and 0 when
/// neither or both are.
pub proof fn lemma_direction_follows_keys(s: FirstPerson, m: Move)
    requires
        s.wf(),
    ensures
        s.keys.has(m) && !s.keys.has(opposite(m)) ==> s.direction.axis(m) == move_sign(m),
        !s.keys.has(m) && !s.keys.has(opposite(m)) ==> s.direction.axis(m) == 0,
        s.keys.has(m) && s.keys.has(opposite(m)) ==> s.direction.axis(m) == 0,
{
}

/// The product of two `i64`, which always fits in an `i128`.
fn wide_product(a: i64, b: i64) -> (r: i128)
    ensures
        r == a as int * b as int,
        -0x4000_0000_0000_0000_0000_0000_0000_0000 <= r <= 0x4000_0000_0000_0000_0000_0000_0000_0000,
{
    proof {
        let lim: int = 0x8000_0000_0000_0000;
        assert(-lim * lim <= a as int * b as int <= lim * lim) by (nonlinear_arith)
            requires
                -lim <= a < lim,
                -lim <= b < lim,
        ;
    }
    a as i128 * b as i128
}

} // verus!
