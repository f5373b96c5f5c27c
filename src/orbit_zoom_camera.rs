//! A camera that orbits around a target point, in the manner of 3ds Max or
//! Blender.
//!
//! Each pointer gesture does one of three things, chosen by the modifier
//! buttons that are held: pan the target, zoom towards or away from it, or
//! orbit around it. The speed settings are in thousandths.
use vstd::prelude::*;

use crate::buttons::same_button;
use input::{Button, Key, MouseButton};

verus! {

/// What a pointer gesture does to the camera.
#[derive(Clone, Copy, PartialEq, Eq, Structural, Debug)]
pub enum Control {
    /// Moves the target along the camera's right and up axes.
    Pan,
    /// Changes the distance from the target.
    Zoom,
    /// Turns the camera around the target.
    Orbit,
}

/// A modifier button of the orbiting camera.
#[derive(Clone, Copy, PartialEq, Eq, Structural, Debug)]
pub enum Mode {
    Zoom,
    Pan,
    Orbit,
}

/// The set of modifier buttons that are held.
#[derive(Clone, Copy, PartialEq, Eq, Structural, Debug)]
pub struct ModeKeys {
    pub zoom: bool,
    pub pan: bool,
    pub orbit: bool,
}

impl ModeKeys {
    /// Whether the button of `m` is held.
    pub open spec fn has(self, m: Mode) -> bool {
        match m {
            Mode::Zoom => self.zoom,
            Mode::Pan => self.pan,
            Mode::Orbit => self.orbit,
        }
    }

    /// The set with the button of `m` held or not, as `held` says.
    pub open spec fn with(self, m: Mode, held: bool) -> ModeKeys {
        match m {
            Mode::Zoom => ModeKeys { zoom: held, ..self },
            Mode::Pan => ModeKeys { pan: held, ..self },
            Mode::Orbit => ModeKeys { orbit: held, ..self },
        }
    }

    /// No button held.
    pub fn empty() -> (r: ModeKeys)
        ensures
            !r.zoom && !r.pan && !r.orbit,
    {
        ModeKeys { zoom: false, pan: false, orbit: false }
    }

    /// Whether the button of `m` is held.
    pub fn contains(&self, m: Mode) -> (r: bool)
        ensures
            r == self.has(m),
    {
        match m {
            Mode::Zoom => self.zoom,
            Mode::Pan => self.pan,
            Mode::Orbit => self.orbit,
        }
    }

    /// Marks the button of `m` held or not.
    pub fn set(&mut self, m: Mode, held: bool)
        ensures
            *final(self) == old(self).with(m, held),
    {
        match m {
            Mode::Zoom => self.zoom = held,
            Mode::Pan => self.pan = held,
            Mode::Orbit => self.orbit = held,
        }
    }
}

/// The key bindings and speeds of an orbiting camera.
#[derive(Clone, Copy)]
pub struct OrbitZoomCameraSettings {
    /// Which button to press to orbit with the pointer.
    pub orbit_button: Button,
    /// Which button to press to zoom with the pointer.
    pub zoom_button: Button,
    /// Which button to press to pan with the pointer.
    pub pan_button: Button,
    /// The orbiting speed, in thousandths.
    pub orbit_speed: i64,
    /// The pitch speed relative to the orbiting speed, in thousandths; a
    /// negative value reverses the pitch.
    pub pitch_speed: i64,
    /// The panning speed, in thousandths.
    pub pan_speed: i64,
    /// The zoom speed, in thousandths.
    pub zoom_speed: i64,
}

impl OrbitZoomCameraSettings {
    /// What button `b` does: the first of orbit, pan and zoom whose button
    /// it is.
    pub open spec fn mode_of(self, b: Button) -> Option<Mode> {
        if b == self.orbit_button {
            Some(Mode::Orbit)
        } else if b == self.pan_button {
            Some(Mode::Pan)
        } else if b == self.zoom_button {
            Some(Mode::Zoom)
        } else {
            None
        }
    }

    /// What button `b` does.
    pub fn binding_of(&self, b: &Button) -> (r: Option<Mode>)
        ensures
            r == self.mode_of(*b),
    {
        if same_button(b, &self.orbit_button) {
            Some(Mode::Orbit)
        } else if same_button(b, &self.pan_button) {
            Some(Mode::Pan)
        } else if same_button(b, &self.zoom_button) {
            Some(Mode::Zoom)
        } else {
            None
        }
    }

    /// The left mouse button orbits, left Shift pans and left Ctrl zooms;
    /// orbit speed 0.05, pitch, pan and zoom speeds 0.1.
    pub fn default() -> (r: OrbitZoomCameraSettings)
        ensures
            r.orbit_button == Button::Mouse(MouseButton::Left),
            r.zoom_button == Button::Keyboard(Key::LCtrl),
            r.pan_button == Button::Keyboard(Key::LShift),
            r.orbit_speed == 50,
            r.pitch_speed == 100,
            r.pan_speed == 100,
            r.zoom_speed == 100,
    {
        OrbitZoomCameraSettings {
            orbit_button: Button::Mouse(MouseButton::Left),
            zoom_button: Button::Keyboard(Key::LCtrl),
            pan_button: Button::Keyboard(Key::LShift),
            orbit_speed: 50,
            pitch_speed: 100,
            pan_speed: 100,
            zoom_speed: 100,
        }
    }

    /// The settings with `button` to orbit.
    pub fn orbit_button(self, button: Button) -> (r: OrbitZoomCameraSettings)
        ensures
            r == (OrbitZoomCameraSettings { orbit_button: button, ..self }),
    {
        OrbitZoomCameraSettings { orbit_button: button, ..self }
    }

    /// The settings with `button` to zoom.
    pub fn zoom_button(self, button: Button) -> (r: OrbitZoomCameraSettings)
        ensures
            r == (OrbitZoomCameraSettings { zoom_button: button, ..self }),
    {
        OrbitZoomCameraSettings { zoom_button: button, ..self }
    }

    /// The settings with `button` to pan.
    pub fn pan_button(self, button: Button) -> (r: OrbitZoomCameraSettings)
        ensures
            r == (OrbitZoomCameraSettings { pan_button: button, ..self }),
    {
        OrbitZoomCameraSettings { pan_button: button, ..self }
    }

    /// The settings with orbit speed `s`.
    pub fn orbit_speed(self, s: i64) -> (r: OrbitZoomCameraSettings)
        ensures
            r == (OrbitZoomCameraSettings { orbit_speed: s, ..self }),
    {
        OrbitZoomCameraSettings { orbit_speed: s, ..self }
    }

    /// The settings with pitch speed `s`.
    pub fn pitch_speed(self, s: i64) -> (r: OrbitZoomCameraSettings)
        ensures
            r == (OrbitZoomCameraSettings { pitch_speed: s, ..self }),
    {
        OrbitZoomCameraSettings { pitch_speed: s, ..self }
    }

    /// The settings with pan speed `s`.
    pub fn pan_speed(self, s: i64) -> (r: OrbitZoomCameraSettings)
        ensures
            r == (OrbitZoomCameraSettings { pan_speed: s, ..self }),
    {
        OrbitZoomCameraSettings { pan_speed: s, ..self }
    }

    /// The settings with zoom speed `s`.
    pub fn zoom_speed(self, s: i64) -> (r: OrbitZoomCameraSettings)
        ensures
            r == (OrbitZoomCameraSettings { zoom_speed: s, ..self }),
    {
        OrbitZoomCameraSettings { zoom_speed: s, ..self }
    }
}

/// The held modifier buttons of an orbiting camera, and what they make of
/// pointer gestures. The target, distance and angles are kept by the
/// caller, which applies each gesture as the chosen `Control` says.
pub struct OrbitZoomCamera {
    /// The key bindings and speeds.
    pub settings: OrbitZoomCameraSettings,
    /// The modifier buttons that are held.
    pub keys: ModeKeys,
}

impl OrbitZoomCamera {
    /// The camera after button `b` is pressed: its modifier is marked held.
    pub open spec fn pressed(self, b: Button) -> OrbitZoomCamera {
        match self.settings.mode_of(b) {
            Some(m) => OrbitZoomCamera { keys: self.keys.with(m, true), ..self },
            None => self,
        }
    }

    /// The camera after button `b` is released: its modifier is marked not
    /// held.
    pub open spec fn released(self, b: Button) -> OrbitZoomCamera {
        match self.settings.mode_of(b) {
            Some(m) => OrbitZoomCamera { keys: self.keys.with(m, false), ..self },
            None => self,
        }
    }

    /// The one control that a gesture performs: pan while the pan button is
    /// held, else zoom while the zoom button is held, else orbit.
    pub open spec fn control(self) -> Control {
        if self.keys.pan {
            Control::Pan
        } else if self.keys.zoom {
            Control::Zoom
        } else {
            Control::Orbit
        }
    }

    /// A camera with no modifier held.
    pub fn new(settings: OrbitZoomCameraSettings) -> (r: OrbitZoomCamera)
        ensures
            r.settings == settings,
            !r.keys.zoom && !r.keys.pan && !r.keys.orbit,
    {
        OrbitZoomCamera { settings, keys: ModeKeys::empty() }
    }

    /// The control that a gesture performs now.
    pub fn control_camera(&self) -> (r: Control)
        ensures
            r == self.control(),
    {
        if self.keys.contains(Mode::Pan) {
            Control::Pan
        } else if self.keys.contains(Mode::Zoom) {
            Control::Zoom
        } else {
            Control::Orbit
        }
    }

    /// The control that a scroll performs: a scroll always acts.
    pub fn scroll_control(&self) -> (r: Control)
        ensures
            r == self.control(),
    {
        self.control_camera()
    }

    /// The control that a relative pointer movement performs: none unless
    /// the orbit button is held. The caller hands it the horizontal delta
    /// negated.
    pub fn motion_control(&self) -> (r: Option<Control>)
        ensures
            r == (if self.keys.orbit {
                Some(self.control())
            } else {
                None
            }),
    {
        if self.keys.contains(Mode::Orbit) {
            Some(self.control_camera())
        } else {
            None
        }
    }

    /// Handles the press of `button`.
    pub fn press(&mut self, button: Button)
        ensures
            *final(self) == old(self).pressed(button),
    {
        match self.settings.binding_of(&button) {
            Some(m) => self.keys.set(m, true),
            None => {},
        }
    }

    /// Handles the release of `button`.
    pub fn release(&mut self, button: Button)
        ensures
            *final(self) == old(self).released(button),
    {
        match self.settings.binding_of(&button) {
            Some(m) => self.keys.set(m, false),
            None => {},
        }
    }
}

/// Pan wins: with orbit, pan and zoom bound to three different buttons and
/// all three pressed, in any order, every gesture pans, so it moves the
/// target and leaves distance and angles alone.
pub proof fn lemma_pan_wins(c: OrbitZoomCamera)
    requires
        c.settings.orbit_button != c.settings.pan_button,
        c.settings.orbit_button != c.settings.zoom_button,
        c.settings.pan_button != c.settings.zoom_button,
    ensures
        ({
            let s = c.settings;
            &&& c.pressed(s.orbit_button).pressed(s.zoom_button).pressed(s.pan_button).control() == Control::Pan
            &&& c.pressed(s.pan_button).pressed(s.zoom_button).pressed(s.orbit_button).control() == Control::Pan
            &&& c.pressed(s.zoom_button).pressed(s.pan_button).pressed(s.orbit_button).control() == Control::Pan
        }),
{
}

/// Zoom wins over orbit: while the zoom button is held and the pan button
/// is not, every gesture zooms; with neither held, it orbits.
pub proof fn lemma_zoom_before_orbit(c: OrbitZoomCamera)
    ensures
        c.keys.zoom && !c.keys.pan ==> c.control() == Control::Zoom,
        !c.keys.zoom && !c.keys.pan ==> c.control() == Control::Orbit,
{
}

} // verus!
