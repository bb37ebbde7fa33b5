//! Speed tiers and the modifiers that select them.

use vstd::prelude::*;

verus! {

/// Top speed with the fast modifier held, in world units per second.
pub const FAST_SPEED: u32 = 1500;

/// Top speed with only the slow modifier held, in world units per second.
pub const SLOW_SPEED: u32 = 50;

/// Top speed with no modifier held, in world units per second.
pub const NORMAL_SPEED: u32 = 500;

/// The three top speeds a moving camera can have.
#[derive(Clone, Copy, Debug, PartialEq, Eq, Structural)]
pub enum SpeedTier {
    Fast,
    Slow,
    Normal,
}

impl SpeedTier {
    /// The tier that a pair of modifiers selects: fast wins over slow, and
    /// without either the normal tier applies.
    pub open spec fn selected_by(fast: bool, slow: bool) -> SpeedTier {
        if fast {
            SpeedTier::Fast
        } else if slow {
            SpeedTier::Slow
        } else {
            SpeedTier::Normal
        }
    }

    /// The tier's top speed in world units per second.
    pub open spec fn speed(self) -> int {
        match self {
            SpeedTier::Fast => FAST_SPEED as int,
            SpeedTier::Slow => SLOW_SPEED as int,
            SpeedTier::Normal => NORMAL_SPEED as int,
        }
    }

    /// Computes [`SpeedTier::selected_by`].
    pub fn select(fast: bool, slow: bool) -> (tier: SpeedTier)
        ensures
            tier == SpeedTier::selected_by(fast, slow),
            fast ==> tier == SpeedTier::Fast,
    {
        if fast {
            SpeedTier::Fast
        } else if slow {
            SpeedTier::Slow
        } else {
            SpeedTier::Normal
        }
    }

    /// Computes [`SpeedTier::speed`].
    pub fn max_speed(&self) -> (speed: u32)
        ensures
            speed == self.speed(),
    {
        match self {
            SpeedTier::Fast => FAST_SPEED,
            SpeedTier::Slow => SLOW_SPEED,
            SpeedTier::Normal => NORMAL_SPEED,
        }
    }
}

} // verus!
