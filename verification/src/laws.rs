//! What holds of every frame.

use crate::controller::{frame_steps, velocity_after, velocity_after_frames, FrameInput, Step};
use crate::input::{axis_value, KeyState};
use crate::speed::SpeedTier;
use crate::velocity::{
    lemma_negligible_from, lemma_pow4_adds, lemma_pow4_increases, lemma_pow4_is_pow2_squared,
    negligible, pow2, pow4, Velocity, REST_THRESHOLD_RECIPROCAL,
};
use vstd::prelude::*;

verus! {

/// Two keys on opposite sides of an axis cancel when both are held, and a
/// key held alone gives its own sign.
pub proof fn lemma_opposed_keys_cancel()
    ensures
        axis_value(true, true) == 0,
        axis_value(false, false) == 0,
        axis_value(true, false) == 1,
        axis_value(false, true) == -1,
{
}

/// Whatever keys are held, each sampled axis is `-1`, `0` or `+1`, so a
/// movement request is never longer than the diagonal of the unit cube.
pub proof fn lemma_sampled_axes_are_unit(keys: KeyState)
    ensures
        keys.axes().wf(),
        0 <= keys.axes().norm_squared() <= 3,
        keys.axes().is_zero() <==> keys.axes().norm_squared() == 0,
        -1 <= keys.roll() <= 1,
{
    keys.axes().lemma_norm_counts_axes();
}

/// The fast modifier decides the tier whether or not the slow one is held
/// with it; the slow modifier decides it only when the fast one is released.
pub proof fn lemma_fast_overrides_slow(slow: bool)
    ensures
        SpeedTier::selected_by(true, slow) == SpeedTier::Fast,
        SpeedTier::selected_by(true, slow).speed() == 1500,
        SpeedTier::selected_by(false, true).speed() == 50,
        SpeedTier::selected_by(false, false).speed() == 500,
{
}

/// A frame with movement input replaces the velocity, whatever it was: the
/// camera then moves along the request at the full speed of the selected
/// tier. The speed is the same however many axes are in use, and it is the
/// fast one whenever the fast modifier is held.
pub proof fn lemma_drive_replaces_velocity(before: Velocity, keys: KeyState)
    requires
        !keys.axes().is_zero(),
    ensures
        before.after(keys) == Velocity::driven(
            keys.axes(),
            SpeedTier::selected_by(keys.speed_fast, keys.speed_slow),
        ),
        before.after(keys).wf(),
        before.after(keys).times_halved() == 0,
        before.after(keys).driven_speed() == SpeedTier::selected_by(
            keys.speed_fast,
            keys.speed_slow,
        ).speed(),
        keys.speed_fast ==> before.after(keys).driven_speed() == 1500,
{
    lemma_negligible_from(SpeedTier::selected_by(keys.speed_fast, keys.speed_slow));
}

/// A frame keeps a well-formed velocity well-formed.
pub proof fn lemma_frame_keeps_velocity_well_formed(
    cameras: nat,
    before: Velocity,
    keys: KeyState,
)
    requires
        before.wf(),
    ensures
        velocity_after(cameras, before, keys).wf(),
{
    lemma_negligible_from(SpeedTier::selected_by(keys.speed_fast, keys.speed_slow));
    if let Velocity::Moving { tier, .. } = before {
        lemma_negligible_from(tier);
    }
}

/// What frames without movement input make of a velocity: nothing of a
/// camera at rest; of a moving one, a camera that keeps its direction and
/// has been halved once more per frame, until the frame whose halving
/// leaves it negligible. From then on it is exactly at rest.
pub proof fn lemma_decay_frames(before: Velocity, frames: nat)
    requires
        before.wf(),
    ensures
        before.decayed_by(frames).wf(),
        before == Velocity::Rest ==> before.decayed_by(frames) == Velocity::Rest,
        before matches Velocity::Moving { direction, tier, halvings } ==> before.decayed_by(frames)
            == (if halvings + frames >= tier.rest_frames() {
            Velocity::Rest
        } else {
            Velocity::Moving { direction, tier, halvings: (halvings + frames) as u8 }
        }),
    decreases frames,
{
    if frames > 0 {
        if let Velocity::Moving { tier, .. } = before {
            lemma_negligible_from(tier);
        }
        lemma_decay_frames(before.decayed(), (frames - 1) as nat);
    } else {
        if let Velocity::Moving { tier, .. } = before {
            lemma_negligible_from(tier);
        }
    }
}

/// A run of frames in none of which the movement keys ask for movement,
/// whatever else is held or moved in them, decays the velocity once per
/// frame.
pub proof fn lemma_idle_frames_decay(before: Velocity, inputs: Seq<FrameInput>)
    requires
        forall|i: int| 0 <= i < inputs.len() ==> (#[trigger] inputs[i]).keys.axes().is_zero(),
    ensures
        velocity_after_frames(before, inputs) == before.decayed_by(inputs.len()),
    decreases inputs.len(),
{
    if inputs.len() > 0 {
        let rest = inputs.drop_first();
        assert forall|i: int| 0 <= i < rest.len() implies (#[trigger] rest[i]).keys.axes().is_zero() by {
            assert(rest[i] == inputs[i + 1]);
        }
        lemma_idle_frames_decay(before.decayed(), rest);
    }
}

/// Without movement input every camera stands exactly still after at most
/// twenty-one frames, and stays so.
pub proof fn lemma_decay_reaches_rest(before: Velocity, inputs: Seq<FrameInput>)
    requires
        before.wf(),
        forall|i: int| 0 <= i < inputs.len() ==> (#[trigger] inputs[i]).keys.axes().is_zero(),
        inputs.len() >= 21,
    ensures
        velocity_after_frames(before, inputs) == Velocity::Rest,
{
    lemma_idle_frames_decay(before, inputs);
    lemma_decay_frames(before, inputs.len());
}

/// Without movement input a camera stands exactly still after any number
/// of frames that is at least the base-two logarithm of its squared speed,
/// measured in rest thresholds: that is, any `frames` for which two to the
/// `frames` is no less than the squared speed times
/// [`REST_THRESHOLD_RECIPROCAL`].
pub proof fn lemma_decay_rests_within_logarithm(before: Velocity, inputs: Seq<FrameInput>)
    requires
        before.wf(),
        forall|i: int| 0 <= i < inputs.len() ==> (#[trigger] inputs[i]).keys.axes().is_zero(),
        before.driven_speed() * before.driven_speed() * REST_THRESHOLD_RECIPROCAL <= pow2(
            inputs.len(),
        ) * pow4(before.times_halved()),
    ensures
        velocity_after_frames(before, inputs) == Velocity::Rest,
{
    let frames: nat = inputs.len();
    lemma_idle_frames_decay(before, inputs);
    lemma_decay_frames(before, frames);
    if let Velocity::Moving { direction, tier, halvings } = before {
        let squared: int = tier.speed() * tier.speed() * REST_THRESHOLD_RECIPROCAL;
        let k: nat = halvings as nat;
        lemma_negligible_from(tier);
        assert(pow4(k) < squared);
        lemma_pow4_adds(k, frames);
        lemma_pow4_is_pow2_squared(frames);
        lemma_pow4_increases(0, k);
        let p: int = pow2(frames) as int;
        let q: int = pow4(k) as int;
        assert(p >= 2) by {
            if p < 2 {
                assert(p == 1);
                assert(p * q == q) by (nonlinear_arith)
                    requires
                        p == 1,
                ;
            }
        }
        assert(squared < q * (p * p)) by (nonlinear_arith)
            requires
                squared <= p * q,
                p >= 2,
                q >= 1,
                squared > 0,
        ;
        assert(negligible(tier, k + frames));
    }
}

/// Unless exactly one camera carries the controller, a frame does nothing:
/// the velocity stays as it is and the plan is empty.
pub proof fn lemma_no_single_camera_no_frame(cameras: nat, before: Velocity, input: FrameInput)
    requires
        cameras != 1,
    ensures
        velocity_after(cameras, before, input.keys) == before,
        frame_steps(cameras, before, input) == Seq::<Step>::empty(),
{
}

/// With one camera, a plan first advances the position, once, with the
/// velocity that the frame has settled, and only after that turns the view:
/// by the pointer before the roll keys, each at most once.
pub proof fn lemma_plan_order(before: Velocity, input: FrameInput)
    ensures
        1 <= frame_steps(1, before, input).len() <= 3,
        frame_steps(1, before, input)[0] == (Step::Advance {
            velocity: velocity_after(1, before, input.keys),
        }),
        frame_steps(1, before, input)[0].moves_camera(),
        forall|i: int|
            1 <= i < frame_steps(1, before, input).len() ==> {
                &&& (#[trigger] frame_steps(1, before, input)[i]).turns_camera()
                &&& !frame_steps(1, before, input)[i].moves_camera()
            },
        forall|i: int, j: int|
            0 <= i < j < frame_steps(1, before, input).len() ==> !((#[trigger] frame_steps(
                1,
                before,
                input,
            )[i]) is Roll && (#[trigger] frame_steps(1, before, input)[j]) is Look),
{
}

/// The view is overwritten from yaw and pitch exactly when the look button
/// is held while the pointer travels; it is rolled exactly when the roll
/// keys do not cancel, and then by their sum.
pub proof fn lemma_turns_follow_input(before: Velocity, input: FrameInput)
    ensures
        (exists|i: int|
            0 <= i < frame_steps(1, before, input).len() && (#[trigger] frame_steps(
                1,
                before,
                input,
            )[i]) is Look) <==> input.looks(),
        (exists|i: int|
            0 <= i < frame_steps(1, before, input).len() && (#[trigger] frame_steps(
                1,
                before,
                input,
            )[i]) is Roll) <==> input.keys.roll() != 0,
        forall|i: int|
            0 <= i < frame_steps(1, before, input).len() ==> ((#[trigger] frame_steps(
                1,
                before,
                input,
            )[i]) matches Step::Roll { scalar } ==> scalar == input.keys.roll()),
{
    let steps = frame_steps(1, before, input);
    if input.looks() {
        assert(steps[1] is Look);
    }
    if input.keys.roll() != 0 {
        assert(steps[steps.len() - 1] is Roll);
    }
}

/// A frame without look input and with the roll keys cancelled or released
/// leaves the orientation alone, however many cameras there are and
/// whatever the movement keys do.
pub proof fn lemma_idle_orientation_untouched(cameras: nat, before: Velocity, input: FrameInput)
    requires
        !input.looks(),
        input.keys.roll() == 0,
    ensures
        forall|i: int|
            0 <= i < frame_steps(cameras, before, input).len() ==> !(#[trigger] frame_steps(
                cameras,
                before,
                input,
            )[i]).turns_camera(),
{
}

/// While the look button is released, pointer motion changes nothing in
/// the frame.
pub proof fn lemma_released_button_ignores_pointer(
    cameras: nat,
    before: Velocity,
    keys: KeyState,
    moved: bool,
)
    ensures
        frame_steps(cameras, before, (FrameInput { keys, look_held: false, pointer_moved: moved }))
            == frame_steps(
            cameras,
            before,
            (FrameInput { keys, look_held: false, pointer_moved: false }),
        ),
{
}

} // verus!
