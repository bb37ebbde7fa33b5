//! Keyboard sampling: from held keys to signed axes.

use vstd::prelude::*;

verus! {

/// Which of the controller's ten logical keys are held in this frame.
///
/// Keys are independent: any combination may be held at once.
#[derive(Clone, Copy, Debug, PartialEq, Eq, Structural)]
pub struct KeyState {
    /// Move along the view direction.
    pub forward: bool,
    /// Move against the view direction.
    pub back: bool,
    /// Move to the camera's left.
    pub strafe_left: bool,
    /// Move to the camera's right.
    pub strafe_right: bool,
    /// Move up along the world's vertical.
    pub ascend: bool,
    /// Move down along the world's vertical.
    pub descend: bool,
    /// Roll by a positive angle about the camera's own `z` axis.
    pub roll_left: bool,
    /// Roll by a negative angle about the camera's own `z` axis.
    pub roll_right: bool,
    /// Modifier that selects the fast speed tier.
    pub speed_fast: bool,
    /// Modifier that selects the slow speed tier.
    pub speed_slow: bool,
}

/// A movement request in the camera's own frame: `x` to the right, `y` up,
/// `z` forward.
#[derive(Clone, Copy, Debug, PartialEq, Eq, Structural)]
pub struct AxisInput {
    pub x: i8,
    pub y: i8,
    pub z: i8,
}

/// The value of one digital axis: the key on its positive side counts `+1`,
/// the key on its negative side `-1`, and the two are summed.
pub open spec fn axis_value(positive: bool, negative: bool) -> int {
    (if positive { 1int } else { 0int }) - (if negative { 1int } else { 0int })
}

/// Computes [`axis_value`].
pub fn signed_axis(positive: bool, negative: bool) -> (value: i8)
    ensures
        value == axis_value(positive, negative),
{
    let up: i8 = if positive { 1 } else { 0 };
    let down: i8 = if negative { 1 } else { 0 };
    up - down
}

impl AxisInput {
    /// Every component is `-1`, `0` or `+1`, as sampled keys can only give.
    pub open spec fn wf(self) -> bool {
        &&& -1 <= self.x <= 1
        &&& -1 <= self.y <= 1
        &&& -1 <= self.z <= 1
    }

    /// No movement is requested on any axis.
    pub open spec fn is_zero(self) -> bool {
        self.x == 0 && self.y == 0 && self.z == 0
    }

    /// The squared Euclidean length of the request.
    pub open spec fn norm_squared(self) -> int {
        self.x * self.x + self.y * self.y + self.z * self.z
    }

    /// A well-formed request uses between zero and three axes, each at unit
    /// strength, and is of length zero only if it uses none.
    pub proof fn lemma_norm_counts_axes(self)
        requires
            self.wf(),
        ensures
            0 <= self.norm_squared() <= 3,
            self.norm_squared() == (if self.x == 0 { 0int } else { 1int }) + (if self.y == 0 {
                0int
            } else {
                1int
            }) + (if self.z == 0 { 0int } else { 1int }),
            self.norm_squared() == 0 <==> self.is_zero(),
    {
        assert(self.x * self.x == (if self.x == 0 { 0int } else { 1int })) by (nonlinear_arith)
            requires
                -1 <= self.x <= 1,
        ;
        assert(self.y * self.y == (if self.y == 0 { 0int } else { 1int })) by (nonlinear_arith)
            requires
                -1 <= self.y <= 1,
        ;
        assert(self.z * self.z == (if self.z == 0 { 0int } else { 1int })) by (nonlinear_arith)
            requires
                -1 <= self.z <= 1,
        ;
    }

    /// Tells whether no movement is requested.
    pub fn is_idle(&self) -> (idle: bool)
        ensures
            idle == self.is_zero(),
    {
        self.x == 0 && self.y == 0 && self.z == 0
    }
}

impl KeyState {
    /// The state in which no key is held.
    pub open spec fn released() -> KeyState {
        KeyState {
            forward: false,
            back: false,
            strafe_left: false,
            strafe_right: false,
            ascend: false,
            descend: false,
            roll_left: false,
            roll_right: false,
            speed_fast: false,
            speed_slow: false,
        }
    }

    /// The movement request that the held keys amount to.
    pub open spec fn axes(self) -> AxisInput {
        AxisInput {
            x: axis_value(self.strafe_right, self.strafe_left) as i8,
            y: axis_value(self.ascend, self.descend) as i8,
            z: axis_value(self.forward, self.back) as i8,
        }
    }

    /// The roll request that the held keys amount to.
    pub open spec fn roll(self) -> int {
        axis_value(self.roll_left, self.roll_right)
    }

    /// A state with every key released.
    pub fn none() -> (keys: KeyState)
        ensures
            keys == KeyState::released(),
    {
        KeyState {
            forward: false,
            back: false,
            strafe_left: false,
            strafe_right: false,
            ascend: false,
            descend: false,
            roll_left: false,
            roll_right: false,
            speed_fast: false,
            speed_slow: false,
        }
    }

    /// Samples the three movement axes.
    pub fn movement_axes(&self) -> (axes: AxisInput)
        ensures
            axes == self.axes(),
            axes.x == axis_value(self.strafe_right, self.strafe_left),
            axes.y == axis_value(self.ascend, self.descend),
            axes.z == axis_value(self.forward, self.back),
            axes.wf(),
    {
        AxisInput {
            x: signed_axis(self.strafe_right, self.strafe_left),
            y: signed_axis(self.ascend, self.descend),
            z: signed_axis(self.forward, self.back),
        }
    }

    /// Samples the roll axis.
    pub fn roll_axis(&self) -> (scalar: i8)
        ensures
            scalar == self.roll(),
            -1 <= scalar <= 1,
    {
        signed_axis(self.roll_left, self.roll_right)
    }
}

} // verus!
