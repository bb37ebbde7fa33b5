use camera_controller::{AxisInput, KeyState, SpeedTier, Velocity};
use camera_controller::{DECAY_DIVISOR, REST_THRESHOLD_RECIPROCAL};

const FORWARD: AxisInput = AxisInput { x: 0, y: 0, z: 1 };

fn frames_until_rest(mut velocity: Velocity) -> u32 {
    let mut frames = 0;
    while !velocity.is_rest() {
        velocity = velocity.decay();
        frames += 1;
        assert!(frames < 1000);
    }
    frames
}

#[test]
fn drive_starts_unhalved() {
    assert_eq!(
        Velocity::drive(FORWARD, SpeedTier::Slow),
        Velocity::Moving { direction: FORWARD, tier: SpeedTier::Slow, halvings: 0 }
    );
    assert!(!Velocity::drive(FORWARD, SpeedTier::Slow).is_rest());
    assert!(Velocity::Rest.is_rest());
}

#[test]
fn decay_halves_once_per_frame() {
    let direction = AxisInput { x: -1, y: 1, z: 0 };
    let mut velocity = Velocity::drive(direction, SpeedTier::Normal);
    for frame in 1..=18u8 {
        velocity = velocity.decay();
        assert_eq!(velocity, Velocity::Moving { direction, tier: SpeedTier::Normal, halvings: frame });
    }
    assert_eq!(velocity.decay(), Velocity::Rest);
}

#[test]
fn rest_stays_at_rest() {
    assert_eq!(Velocity::Rest.decay(), Velocity::Rest);
    assert_eq!(Velocity::Rest.advance(&KeyState::none()), Velocity::Rest);
    assert_eq!(frames_until_rest(Velocity::Rest), 0);
}

#[test]
fn frames_to_rest_per_tier() {
    assert_eq!(SpeedTier::Fast.frames_to_rest(), 21);
    assert_eq!(SpeedTier::Normal.frames_to_rest(), 19);
    assert_eq!(SpeedTier::Slow.frames_to_rest(), 16);
    assert_eq!(frames_until_rest(Velocity::drive(FORWARD, SpeedTier::Fast)), 21);
    assert_eq!(frames_until_rest(Velocity::drive(FORWARD, SpeedTier::Normal)), 19);
    assert_eq!(frames_until_rest(Velocity::drive(FORWARD, SpeedTier::Slow)), 16);
}

#[test]
fn frames_to_rest_is_first_frame_under_threshold() {
    assert_eq!(DECAY_DIVISOR, 2);
    assert_eq!(REST_THRESHOLD_RECIPROCAL, 1_000_000);
    for tier in [SpeedTier::Fast, SpeedTier::Normal, SpeedTier::Slow] {
        let speed = u128::from(tier.max_speed());
        let squared_in_thresholds = speed * speed * u128::from(REST_THRESHOLD_RECIPROCAL);
        let quartering = u128::from(DECAY_DIVISOR * DECAY_DIVISOR);
        let frames = u32::from(tier.frames_to_rest());
        assert!(squared_in_thresholds < quartering.pow(frames));
        assert!(squared_in_thresholds >= quartering.pow(frames - 1));
    }
}

#[test]
fn rest_comes_within_logarithm_of_squared_speed() {
    for tier in [SpeedTier::Fast, SpeedTier::Normal, SpeedTier::Slow] {
        let speed = f64::from(tier.max_speed());
        let bound = (speed * speed / 1e-6).log2().ceil();
        let frames = frames_until_rest(Velocity::drive(FORWARD, tier));
        assert!(f64::from(frames) <= bound);
    }
    let bound = (1500.0f64 * 1500.0 / 1e-6).log2().ceil();
    assert_eq!(bound, 42.0);
}

#[test]
fn advance_drives_when_keys_move() {
    let none = KeyState::none();
    let keys = KeyState { strafe_left: true, ascend: true, speed_slow: true, ..none };
    let expected = Velocity::Moving {
        direction: AxisInput { x: -1, y: 1, z: 0 },
        tier: SpeedTier::Slow,
        halvings: 0,
    };
    assert_eq!(Velocity::Rest.advance(&keys), expected);
    let coasting = Velocity::Moving { direction: FORWARD, tier: SpeedTier::Fast, halvings: 7 };
    assert_eq!(coasting.advance(&keys), expected);
}

#[test]
fn advance_decays_when_keys_cancel() {
    let none = KeyState::none();
    let keys = KeyState { forward: true, back: true, speed_fast: true, roll_left: true, ..none };
    let coasting = Velocity::Moving { direction: FORWARD, tier: SpeedTier::Normal, halvings: 3 };
    assert_eq!(
        coasting.advance(&keys),
        Velocity::Moving { direction: FORWARD, tier: SpeedTier::Normal, halvings: 4 }
    );
    let last = Velocity::Moving { direction: FORWARD, tier: SpeedTier::Slow, halvings: 15 };
    assert_eq!(last.advance(&none), Velocity::Rest);
}

#[test]
fn decay_is_defined_for_every_count() {
    for tier in [SpeedTier::Fast, SpeedTier::Normal, SpeedTier::Slow] {
        let limit = tier.frames_to_rest();
        for halvings in 0..=u8::MAX {
            let velocity = Velocity::Moving { direction: FORWARD, tier, halvings };
            let expected = if u16::from(halvings) + 1 < u16::from(limit) {
                Velocity::Moving { direction: FORWARD, tier, halvings: halvings + 1 }
            } else {
                Velocity::Rest
            };
            assert_eq!(velocity.decay(), expected);
        }
    }
}
