//! Decision core of a free-flying first-person camera.
//!
//! Once per frame the host samples its input devices into a [`FrameInput`]
//! and hands it to [`CameraController::update`]. The controller settles the
//! camera's velocity, which it holds exactly, and answers with an ordered
//! list of [`Step`]s; the host carries them out, in that order, on the
//! camera's position and orientation. Everything that is decided (which
//! keys cancel, which speed applies, when a coasting camera comes to rest,
//! whether the view turns, what happens when no single camera can be
//! found) is decided here, on integers and booleans, and proved to meet the
//! contract stated with each function. Positions, angles and orientations
//! are floating-point values of the host's engine and stay with the host.

pub mod controller;
pub mod input;
pub mod laws;
pub mod speed;
pub mod velocity;

pub use controller::{
    frame_steps, look_steps, roll_steps, velocity_after, velocity_after_frames, CameraController,
    FrameInput, Step, DOTS_PER_RADIAN, ROLL_STEPS_PER_RADIAN,
};
pub use input::{axis_value, signed_axis, AxisInput, KeyState};
pub use speed::{SpeedTier, FAST_SPEED, NORMAL_SPEED, SLOW_SPEED};
pub use velocity::{negligible, pow2, pow4, Velocity, DECAY_DIVISOR, REST_THRESHOLD_RECIPROCAL};
