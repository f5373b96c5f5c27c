//! Camera controllers for 3D scenes: a first person camera that flies
//! through the world and a camera that orbits around a target point.
//!
//! The controllers hold the decisions that input events drive: which
//! movement keys are held, the direction of travel, the speed multiplier,
//! the yaw and pitch of the first person camera, and which of pan, zoom and
//! orbit a pointer gesture performs.
pub mod buttons;
pub mod first_person;
pub mod orbit_zoom_camera;

pub use input::Button;
pub use orbit_zoom_camera::{Control, Mode, ModeKeys, OrbitZoomCamera, OrbitZoomCameraSettings};
pub use first_person::{Binding, Direction, FirstPerson, FirstPersonSettings, Move, MoveKeys};
