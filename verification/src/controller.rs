//! The controller: its state, and the plan it makes for each frame.

use crate::input::KeyState;
use crate::velocity::Velocity;
use vstd::prelude::*;

verus! {

/// Pointer travel that turns the view by one radian, in device dots.
pub const DOTS_PER_RADIAN: u32 = 180;

/// Number of [`Step::Roll`] steps of scalar `1` that add up to one radian.
pub const ROLL_STEPS_PER_RADIAN: u32 = 100;

/// What the host has sampled from its input devices for one frame.
#[derive(Clone, Copy, Debug, PartialEq, Eq, Structural)]
pub struct FrameInput {
    /// The held keys.
    pub keys: KeyState,
    /// The look button is held.
    pub look_held: bool,
    /// The pointer motion reported since the previous frame adds up to a
    /// travel other than zero. Motion of earlier frames never counts.
    pub pointer_moved: bool,
}

/// One action on the camera's pose. The host performs the steps of a plan
/// in the order in which the plan lists them.
#[derive(Clone, Copy, Debug, PartialEq, Eq, Structural)]
pub enum Step {
    /// Advance the position by the elapsed time times `velocity`, whose `x`
    /// runs along the camera's current right axis, `y` along the world's
    /// vertical and `z` along the camera's current forward axis.
    Advance { velocity: Velocity },
    /// Lower yaw and pitch by the pointer's travel divided by
    /// [`DOTS_PER_RADIAN`], keep the pitch within a quarter turn either way,
    /// and overwrite the orientation by yaw about the world's vertical
    /// followed by pitch about the lateral axis, without roll.
    Look,
    /// Turn the orientation about its own `z` axis, the one the camera
    /// looks along, by `scalar` divided by [`ROLL_STEPS_PER_RADIAN`], in
    /// radians. The turn is applied on top of the orientation as it is,
    /// whether or not a look step has just overwritten it.
    Roll { scalar: i8 },
}

impl Step {
    /// The step writes the camera's position.
    pub open spec fn moves_camera(self) -> bool {
        self is Advance
    }

    /// The step writes the camera's orientation.
    pub open spec fn turns_camera(self) -> bool {
        self is Look || self is Roll
    }
}

impl FrameInput {
    /// The view follows the pointer in this frame: the look button is held
    /// and the pointer has travelled. With the button released the pointer
    /// counts as still.
    pub open spec fn looks(self) -> bool {
        self.look_held && self.pointer_moved
    }

    /// Computes [`FrameInput::looks`].
    pub fn look_active(&self) -> (active: bool)
        ensures
            active == self.looks(),
    {
        self.look_held && self.pointer_moved
    }
}

/// The velocity after a frame that began with `velocity`: settled by the
/// held keys if exactly one camera carries the controller, else untouched.
pub open spec fn velocity_after(cameras: nat, velocity: Velocity, keys: KeyState) -> Velocity {
    if cameras == 1 {
        velocity.after(keys)
    } else {
        velocity
    }
}

/// The velocity after a run of frames that began with `velocity`, with one
/// camera carrying the controller throughout.
pub open spec fn velocity_after_frames(velocity: Velocity, inputs: Seq<FrameInput>) -> Velocity
    decreases inputs.len(),
{
    if inputs.len() == 0 {
        velocity
    } else {
        velocity_after_frames(velocity_after(1, velocity, inputs[0].keys), inputs.drop_first())
    }
}

/// The look step, if the view follows the pointer in this frame.
pub open spec fn look_steps(input: FrameInput) -> Seq<Step> {
    if input.looks() {
        seq![Step::Look]
    } else {
        Seq::empty()
    }
}

/// The roll step, if the roll keys do not cancel.
pub open spec fn roll_steps(keys: KeyState) -> Seq<Step> {
    if keys.roll() != 0 {
        seq![Step::Roll { scalar: keys.roll() as i8 }]
    } else {
        Seq::empty()
    }
}

/// The plan for a frame that began with `velocity`, given how many cameras
/// carry the controller.
///
/// Unless there is exactly one such camera, nothing is done. Otherwise the
/// position is advanced with the velocity that the held keys settle, along
/// the axes of the orientation as the frame found it; then the view is
/// turned by the pointer, and last of all rolled.
pub open spec fn frame_steps(cameras: nat, velocity: Velocity, input: FrameInput) -> Seq<Step> {
    if cameras != 1 {
        Seq::empty()
    } else {
        seq![Step::Advance { velocity: velocity.after(input.keys) }] + look_steps(input)
            + roll_steps(input.keys)
    }
}

/// The state that the controller keeps for its camera from frame to frame.
///
/// It holds the velocity. Yaw and pitch, which only the look step reads and
/// writes, are kept by the host that performs that step.
#[derive(Clone, Copy, Debug, PartialEq, Eq)]
pub struct CameraController {
    velocity: Velocity,
}

impl View for CameraController {
    type V = Velocity;

    closed spec fn view(&self) -> Velocity {
        self.velocity
    }
}

impl Default for CameraController {
    /// A controller at rest.
    fn default() -> (controller: Self)
        ensures
            controller@ == Velocity::Rest,
    {
        CameraController { velocity: Velocity::Rest }
    }
}

impl CameraController {
    #[verifier::type_invariant]
    spec fn well_formed(self) -> bool {
        self.velocity.wf()
    }

    /// A controller at rest.
    pub fn new() -> (controller: Self)
        ensures
            controller@ == Velocity::Rest,
    {
        CameraController { velocity: Velocity::Rest }
    }

    /// The camera's current velocity.
    pub fn velocity(&self) -> (velocity: Velocity)
        ensures
            velocity == self@,
            velocity.wf(),
    {
        proof {
            use_type_invariant(self);
        }
        self.velocity
    }

    /// Plans one frame for `cameras` cameras that carry the controller, and
    /// settles the velocity for it.
    pub fn update(&mut self, cameras: usize, input: &FrameInput) -> (steps: Vec<Step>)
        ensures
            final(self)@ == velocity_after(cameras as nat, old(self)@, input.keys),
            final(self)@.wf(),
            steps@ == frame_steps(cameras as nat, old(self)@, *input),
            cameras != 1 ==> final(self)@ == old(self)@ && steps@.len() == 0,
            cameras == 1 ==> steps@.len() >= 1 && steps@[0] == (Step::Advance {
                velocity: final(self)@,
            }),
    {
        proof {
            use_type_invariant(&*self);
        }
        let mut steps: Vec<Step> = Vec::new();
        if cameras != 1 {
            return steps;
        }
        let velocity: Velocity = self.velocity.advance(&input.keys);
        self.velocity = velocity;
        steps.push(Step::Advance { velocity });
        if input.look_active() {
            steps.push(Step::Look);
        }
        let scalar: i8 = input.keys.roll_axis();
        if scalar != 0 {
            steps.push(Step::Roll { scalar });
        }
        assert(steps@ =~= frame_steps(cameras as nat, old(self)@, *input));
        steps
    }
}

} // verus!
