//! The camera's velocity, held exactly.
//!
//! A drive sets the velocity to a unit direction times the top speed of a
//! tier, and every frame without movement input halves it. So at any time
//! the velocity is either zero or known from three small values: the
//! direction it was last driven in, the tier it was driven at, and the
//! number of halvings since. Its length is the tier's speed divided by two
//! to the number of halvings, and the rule that puts a slow camera to rest
//! is decided on integers.

use crate::input::{AxisInput, KeyState};
use crate::speed::SpeedTier;
use vstd::prelude::*;

verus! {

/// What a frame without movement input divides the velocity by.
pub const DECAY_DIVISOR: u32 = 2;

/// Reciprocal of the squared speed under which a decaying camera is put to
/// rest.
pub const REST_THRESHOLD_RECIPROCAL: u32 = 1_000_000;

/// Four to the power `n`: what `n` halvings divide a squared length by.
pub open spec fn pow4(n: nat) -> nat
    decreases n,
{
    if n == 0 {
        1
    } else {
        4 * pow4((n - 1) as nat)
    }
}

/// Two to the power `n`.
pub open spec fn pow2(n: nat) -> nat
    decreases n,
{
    if n == 0 {
        1
    } else {
        2 * pow2((n - 1) as nat)
    }
}

/// The camera's velocity in its own frame (`x` right, `y` up, `z` forward).
#[derive(Clone, Copy, Debug, PartialEq, Eq, Structural)]
pub enum Velocity {
    /// The zero vector.
    Rest,
    /// `direction`, scaled to unit length, times the top speed of `tier`,
    /// divided by two to the power `halvings`.
    Moving { direction: AxisInput, tier: SpeedTier, halvings: u8 },
}

/// A velocity driven at `tier` and halved `halvings` times has a squared
/// length under one [`REST_THRESHOLD_RECIPROCAL`]th.
pub open spec fn negligible(tier: SpeedTier, halvings: nat) -> bool {
    tier.speed() * tier.speed() * REST_THRESHOLD_RECIPROCAL < pow4(halvings)
}

impl Velocity {
    /// A moving camera has a direction to move in, and has not yet slowed
    /// down to where it is put to rest.
    pub open spec fn wf(self) -> bool {
        match self {
            Velocity::Rest => true,
            Velocity::Moving { direction, tier, halvings } => {
                &&& direction.wf()
                &&& !direction.is_zero()
                &&& !negligible(tier, halvings as nat)
            },
        }
    }

    /// Numerator of the velocity's length: the speed it was driven at, or
    /// zero at rest.
    pub open spec fn driven_speed(self) -> int {
        match self {
            Velocity::Rest => 0,
            Velocity::Moving { tier, .. } => tier.speed(),
        }
    }

    /// Number of times the velocity was halved since it was driven.
    pub open spec fn times_halved(self) -> nat {
        match self {
            Velocity::Rest => 0,
            Velocity::Moving { halvings, .. } => halvings as nat,
        }
    }

    /// The velocity after a frame with movement input `direction`, which
    /// replaces whatever velocity there was.
    pub open spec fn driven(direction: AxisInput, tier: SpeedTier) -> Velocity {
        Velocity::Moving { direction, tier, halvings: 0 }
    }

    /// The velocity after a frame without movement input: halved, and put
    /// to rest if that leaves it negligible.
    pub open spec fn decayed(self) -> Velocity {
        match self {
            Velocity::Rest => Velocity::Rest,
            Velocity::Moving { direction, tier, halvings } => {
                if negligible(tier, halvings as nat + 1) {
                    Velocity::Rest
                } else {
                    Velocity::Moving { direction, tier, halvings: (halvings + 1) as u8 }
                }
            },
        }
    }

    /// The velocity after `frames` frames without movement input.
    pub open spec fn decayed_by(self, frames: nat) -> Velocity
        decreases frames,
    {
        if frames == 0 {
            self
        } else {
            self.decayed().decayed_by((frames - 1) as nat)
        }
    }

    /// The velocity after a frame in which `keys` are held.
    pub open spec fn after(self, keys: KeyState) -> Velocity {
        if keys.axes().is_zero() {
            self.decayed()
        } else {
            Velocity::driven(
                keys.axes(),
                SpeedTier::selected_by(keys.speed_fast, keys.speed_slow),
            )
        }
    }

    /// Tells whether the camera stands still.
    pub fn is_rest(&self) -> (rest: bool)
        ensures
            rest == (*self == Velocity::Rest),
    {
        match self {
            Velocity::Rest => true,
            Velocity::Moving { .. } => false,
        }
    }

    /// Computes [`Velocity::driven`].
    pub fn drive(direction: AxisInput, tier: SpeedTier) -> (velocity: Velocity)
        ensures
            velocity == Velocity::driven(direction, tier),
            direction.wf() && !direction.is_zero() ==> velocity.wf(),
    {
        proof {
            lemma_negligible_from(tier);
        }
        Velocity::Moving { direction, tier, halvings: 0 }
    }

    /// Computes [`Velocity::decayed`].
    pub fn decay(self) -> (velocity: Velocity)
        ensures
            velocity == self.decayed(),
            self.wf() ==> velocity.wf(),
    {
        match self {
            Velocity::Rest => Velocity::Rest,
            Velocity::Moving { direction, tier, halvings } => {
                let limit: u8 = tier.frames_to_rest();
                if halvings >= limit - 1 {
                    Velocity::Rest
                } else {
                    Velocity::Moving { direction, tier, halvings: halvings + 1 }
                }
            },
        }
    }

    /// Computes [`Velocity::after`].
    pub fn advance(self, keys: &KeyState) -> (velocity: Velocity)
        ensures
            velocity == self.after(*keys),
            self.wf() ==> velocity.wf(),
            !keys.axes().is_zero() ==> velocity.wf(),
    {
        let axes: AxisInput = keys.movement_axes();
        if axes.is_idle() {
            self.decay()
        } else {
            Velocity::drive(axes, SpeedTier::select(keys.speed_fast, keys.speed_slow))
        }
    }
}

impl SpeedTier {
    /// Number of frames without movement input after which a camera driven
    /// at this tier stands still.
    pub open spec fn rest_frames(self) -> nat {
        match self {
            SpeedTier::Fast => 21,
            SpeedTier::Slow => 16,
            SpeedTier::Normal => 19,
        }
    }

    /// Computes [`SpeedTier::rest_frames`]: the least number of halvings
    /// that make a velocity driven at this tier negligible.
    pub fn frames_to_rest(&self) -> (frames: u8)
        ensures
            frames == self.rest_frames(),
            forall|halvings: nat| negligible(*self, halvings) <==> halvings >= frames,
    {
        proof {
            lemma_negligible_from(*self);
        }
        match self {
            SpeedTier::Fast => 21,
            SpeedTier::Slow => 16,
            SpeedTier::Normal => 19,
        }
    }
}

/// More halvings divide by more.
pub proof fn lemma_pow4_increases(low: nat, high: nat)
    requires
        low <= high,
    ensures
        pow4(low) <= pow4(high),
        low < high ==> pow4(low) < pow4(high),
        pow4(low) >= 1,
    decreases high,
{
    if low < high {
        lemma_pow4_increases(low, (high - 1) as nat);
    } else {
        if low > 0 {
            lemma_pow4_increases((low - 1) as nat, (low - 1) as nat);
        }
    }
}

/// Halvings add up: dividing by four `low` times and then `more` times
/// divides by four `low + more` times.
pub proof fn lemma_pow4_adds(low: nat, more: nat)
    ensures
        pow4(low + more) == pow4(low) * pow4(more),
    decreases more,
{
    if more == 0 {
        assert(pow4(low) * 1 == pow4(low)) by (nonlinear_arith);
    } else {
        lemma_pow4_adds(low, (more - 1) as nat);
        let a: int = pow4(low) as int;
        let b: int = pow4((more - 1) as nat) as int;
        assert(pow4(low + more) == 4 * pow4((low + more - 1) as nat));
        assert(4 * (a * b) == a * (4 * b)) by (nonlinear_arith);
    }
}

/// Halving a length `n` times divides its square by two to the `n`, twice.
pub proof fn lemma_pow4_is_pow2_squared(n: nat)
    ensures
        pow4(n) == pow2(n) * pow2(n),
        pow2(n) >= 1,
    decreases n,
{
    if n > 0 {
        lemma_pow4_is_pow2_squared((n - 1) as nat);
        let half: int = pow2((n - 1) as nat) as int;
        assert(pow2(n) == 2 * half);
        assert(pow4(n) == 4 * (half * half));
        assert((2 * half) * (2 * half) == 4 * (half * half)) by (nonlinear_arith);
    } else {
        assert(pow2(0) * pow2(0) == 1) by (nonlinear_arith)
            requires
                pow2(0) == 1,
        ;
    }
}

/// A velocity driven at `tier` is negligible from [`SpeedTier::rest_frames`]
/// halvings on, and not before.
pub proof fn lemma_negligible_from(tier: SpeedTier)
    ensures
        forall|halvings: nat| negligible(tier, halvings) <==> halvings >= tier.rest_frames(),
        !negligible(tier, 0),
        forall|halvings: nat|
            !negligible(tier, halvings) ==> pow4(halvings) < tier.speed() * tier.speed()
                * REST_THRESHOLD_RECIPROCAL,
{
    assert(pow4(15) == 1_073_741_824 && pow4(16) == 4_294_967_296 && pow4(18) == 68_719_476_736
        && pow4(19) == 274_877_906_944 && pow4(20) == 1_099_511_627_776 && pow4(21)
        == 4_398_046_511_104) by {
        reveal_with_fuel(pow4, 22);
    }
    let speed: int = tier.speed();
    assert(speed * speed * REST_THRESHOLD_RECIPROCAL == (if speed == 1500 {
        2_250_000_000_000int
    } else if speed == 50 {
        2_500_000_000int
    } else {
        250_000_000_000int
    })) by (nonlinear_arith)
        requires
            speed == 1500 || speed == 50 || speed == 500,
            REST_THRESHOLD_RECIPROCAL == 1_000_000,
    ;
    assert forall|halvings: nat| negligible(tier, halvings) <==> halvings
        >= tier.rest_frames() by {
        let frames = tier.rest_frames();
        if halvings >= frames {
            lemma_pow4_increases(frames, halvings);
        } else {
            lemma_pow4_increases(halvings, (frames - 1) as nat);
        }
    }
    assert forall|halvings: nat| !negligible(tier, halvings) implies pow4(halvings)
        < tier.speed() * tier.speed() * REST_THRESHOLD_RECIPROCAL by {
        lemma_pow4_increases(halvings, (tier.rest_frames() - 1) as nat);
    }
}

} // verus!
