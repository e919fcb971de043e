use simcore::input::{InputAction, InputMovement};
use simcore::math::{Vec2, Vec3};
use simcore::physics::{apply_velocity, PhysicsError, Scalars, Velocity, BASE_GRAVITY};
use simcore::player::{jump, BASE_JUMP_HEIGHT};
use simcore::tick::PhysicsTick;

fn plain() -> Scalars {
    Scalars { speed: 1_000_000, acceleration: 1_000_000, damping: 0, gravity: 0, jump_height: 0 }
}

#[test]
fn velocity_starts_at_rest() {
    let velocity = Velocity::new();
    assert_eq!(velocity.target, Vec3::new(0, 0, 0));
    assert_eq!(velocity.current, Vec3::new(0, 0, 0));
    assert_eq!(velocity.added, Vec3::new(0, 0, 0));
}

#[test]
fn add_gathers_impulses() {
    let mut velocity = Velocity::new();
    assert_eq!(velocity.add(Vec3::new(1, 2, 3)), Ok(()));
    assert_eq!(velocity.add(Vec3::new(10, -20, 30)), Ok(()));
    assert_eq!(velocity.added, Vec3::new(11, -18, 33));
    assert_eq!(velocity.current, Vec3::new(0, 0, 0));
}

#[test]
fn add_refuses_what_does_not_fit() {
    let mut velocity = Velocity::new();
    assert_eq!(velocity.add(Vec3::new(i64::MAX, 0, 0)), Ok(()));
    assert_eq!(velocity.add(Vec3::new(1, 5, 5)), Err(PhysicsError::Overflow));
    assert_eq!(velocity.added, Vec3::new(i64::MAX, 0, 0));
    assert_eq!(velocity.add(Vec3::new(0, i64::MIN, 0)), Ok(()));
    assert_eq!(velocity.add(Vec3::new(0, -1, 0)), Err(PhysicsError::Overflow));
}

#[test]
fn end_to_end_twenty_ticks_at_twenty_hertz() {
    let tick = PhysicsTick::with_rate(20).unwrap();
    let mut velocity = Velocity::new();
    velocity.target = Vec3::new(1_000_000, 0, 0);
    let mut position = Vec3::new(0, 0, 0);
    let scalars = plain();
    let mut expected_x: i64 = 0;
    for n in 1..=20i64 {
        assert_eq!(apply_velocity(&mut velocity, &mut position, &scalars, 0, &tick), Ok(()));
        expected_x += n * 1_000_000 * 50_000_000 / 1_000_000_000;
        assert_eq!(velocity.current, Vec3::new(n * 1_000_000, 0, 0));
        assert_eq!(position, Vec3::new(expected_x, 0, 0));
        assert_eq!(velocity.added, Vec3::new(0, 0, 0));
    }
    assert_eq!(velocity.current.x, 20_000_000);
    assert_eq!(position.x, 10_500_000);
    assert_eq!(position.y, 0);
    assert_eq!(position.z, 0);
}

#[test]
fn damping_decays_the_horizontal_part_each_tick() {
    let tick = PhysicsTick::default();
    let mut velocity = Velocity::new();
    velocity.current = Vec3::new(1_000_000, 3_000_000, -2_000_000);
    let mut position = Vec3::new(0, 0, 0);
    let scalars =
        Scalars { speed: 1_000_000, acceleration: 0, damping: 300_000, gravity: 0, jump_height: 0 };
    assert_eq!(apply_velocity(&mut velocity, &mut position, &scalars, 0, &tick), Ok(()));
    assert_eq!(velocity.current, Vec3::new(700_000, 3_000_000, -1_400_000));
    assert_eq!(position, Vec3::new(35_000, 150_000, -70_000));
    assert_eq!(apply_velocity(&mut velocity, &mut position, &scalars, 0, &tick), Ok(()));
    assert_eq!(velocity.current, Vec3::new(490_000, 3_000_000, -980_000));
}

#[test]
fn full_damping_stops_the_horizontal_part() {
    let tick = PhysicsTick::default();
    let mut velocity = Velocity::new();
    velocity.current = Vec3::new(5_000_000, 0, 5_000_000);
    velocity.target = Vec3::new(1_000_000, 0, 0);
    let mut position = Vec3::new(7, 0, 9);
    let scalars = Scalars {
        speed: 1_000_000,
        acceleration: 1_000_000,
        damping: 1_000_000,
        gravity: 0,
        jump_height: 0,
    };
    assert_eq!(apply_velocity(&mut velocity, &mut position, &scalars, 0, &tick), Ok(()));
    assert_eq!(velocity.current, Vec3::new(0, 0, 0));
    assert_eq!(position, Vec3::new(7, 0, 9));
}

#[test]
fn steering_push_is_scaled_by_acceleration() {
    let tick = PhysicsTick::default();
    let mut velocity = Velocity::new();
    velocity.target = Vec3::new(3_000_000, 9_000_000, -1_000_000);
    let mut position = Vec3::new(0, 0, 0);
    let scalars =
        Scalars { speed: 1_000_000, acceleration: 200_000, damping: 0, gravity: 0, jump_height: 0 };
    assert_eq!(apply_velocity(&mut velocity, &mut position, &scalars, 0, &tick), Ok(()));
    assert_eq!(velocity.current, Vec3::new(600_000, 0, -200_000));
    assert_eq!(velocity.target, Vec3::new(3_000_000, 9_000_000, -1_000_000));
}

#[test]
fn gravity_pulls_after_the_move() {
    let tick = PhysicsTick::default();
    let mut velocity = Velocity::new();
    let mut position = Vec3::new(0, 10_000_000, 0);
    let scalars = Scalars {
        speed: 1_000_000,
        acceleration: 1_000_000,
        damping: 0,
        gravity: 1_000_000,
        jump_height: 0,
    };
    assert_eq!(apply_velocity(&mut velocity, &mut position, &scalars, BASE_GRAVITY, &tick), Ok(()));
    assert_eq!(position, Vec3::new(0, 10_000_000, 0));
    assert_eq!(velocity.current, Vec3::new(0, -490_500, 0));
    assert_eq!(apply_velocity(&mut velocity, &mut position, &scalars, BASE_GRAVITY, &tick), Ok(()));
    assert_eq!(position, Vec3::new(0, 10_000_000 - 24_525, 0));
    assert_eq!(velocity.current, Vec3::new(0, -981_000, 0));
}

#[test]
fn gravity_multiplier_scales_the_pull() {
    let tick = PhysicsTick::default();
    let mut velocity = Velocity::new();
    let mut position = Vec3::new(0, 10_000_000, 0);
    let scalars = Scalars {
        speed: 1_000_000,
        acceleration: 1_000_000,
        damping: 0,
        gravity: 1_100_000,
        jump_height: 0,
    };
    assert_eq!(apply_velocity(&mut velocity, &mut position, &scalars, BASE_GRAVITY, &tick), Ok(()));
    assert_eq!(velocity.current.y, -539_550);
}

#[test]
fn floor_clamp_puts_the_agent_on_the_floor() {
    let tick = PhysicsTick::default();
    let mut velocity = Velocity::new();
    velocity.current = Vec3::new(0, -10_000_000, 0);
    let mut position = Vec3::new(0, 100_000, 0);
    let scalars = Scalars {
        speed: 1_000_000,
        acceleration: 1_000_000,
        damping: 0,
        gravity: 1_000_000,
        jump_height: 0,
    };
    assert_eq!(apply_velocity(&mut velocity, &mut position, &scalars, BASE_GRAVITY, &tick), Ok(()));
    assert_eq!(position.y, 0);
    assert_eq!(velocity.current.y, 0);
}

#[test]
fn floor_clamp_holds_from_below_the_floor() {
    let tick = PhysicsTick::default();
    let mut velocity = Velocity::new();
    velocity.current = Vec3::new(2_000_000, 1_000_000, 0);
    let mut position = Vec3::new(0, -5_000_000, 0);
    assert_eq!(apply_velocity(&mut velocity, &mut position, &plain(), 0, &tick), Ok(()));
    assert_eq!(position, Vec3::new(100_000, 0, 0));
    assert_eq!(velocity.current, Vec3::new(2_000_000, 0, 0));
}

#[test]
fn landing_exactly_on_the_floor_keeps_falling_speed() {
    let tick = PhysicsTick::default();
    let mut velocity = Velocity::new();
    velocity.current = Vec3::new(0, -2_000_000, 0);
    let mut position = Vec3::new(0, 100_000, 0);
    assert_eq!(apply_velocity(&mut velocity, &mut position, &plain(), 0, &tick), Ok(()));
    assert_eq!(position.y, 0);
    assert_eq!(velocity.current.y, -2_000_000);
}

#[test]
fn impulses_are_folded_in_and_consumed() {
    let tick = PhysicsTick::default();
    let mut velocity = Velocity::new();
    velocity.current = Vec3::new(1_000_000, 0, 0);
    assert_eq!(velocity.add(Vec3::new(1_000_000, 4_000_000, 2_000_000)), Ok(()));
    let mut position = Vec3::new(0, 0, 0);
    assert_eq!(apply_velocity(&mut velocity, &mut position, &plain(), 0, &tick), Ok(()));
    assert_eq!(velocity.current, Vec3::new(2_000_000, 4_000_000, 2_000_000));
    assert_eq!(velocity.added, Vec3::new(0, 0, 0));
    assert_eq!(position, Vec3::new(100_000, 200_000, 100_000));
}

#[test]
fn small_speeds_round_toward_zero_on_both_sides() {
    let tick = PhysicsTick::default();
    let scalars =
        Scalars { speed: 1_000_000, acceleration: 0, damping: 300_000, gravity: 0, jump_height: 0 };
    let mut velocity = Velocity::new();
    velocity.current = Vec3::new(1, 0, -1);
    let mut position = Vec3::new(0, 0, 0);
    assert_eq!(apply_velocity(&mut velocity, &mut position, &scalars, 0, &tick), Ok(()));
    assert_eq!(velocity.current, Vec3::new(0, 0, 0));
    let mut slow = Velocity::new();
    slow.current = Vec3::new(19, 0, -19);
    assert_eq!(apply_velocity(&mut slow, &mut position, &plain(), 0, &tick), Ok(()));
    assert_eq!(position, Vec3::new(0, 0, 0));
    slow.current = Vec3::new(20, 0, -20);
    assert_eq!(apply_velocity(&mut slow, &mut position, &plain(), 0, &tick), Ok(()));
    assert_eq!(position, Vec3::new(1, 0, -1));
}

#[test]
fn step_is_refused_where_the_position_does_not_fit() {
    let tick = PhysicsTick::default();
    let mut velocity = Velocity::new();
    velocity.current = Vec3::new(1_000_000_000, 0, 0);
    let mut position = Vec3::new(i64::MAX - 10, 0, 0);
    assert_eq!(
        apply_velocity(&mut velocity, &mut position, &plain(), 0, &tick),
        Err(PhysicsError::Overflow)
    );
    assert_eq!(position, Vec3::new(i64::MAX - 10, 0, 0));
    assert_eq!(velocity.current, Vec3::new(1_000_000_000, 0, 0));
}

#[test]
fn step_is_refused_where_the_velocity_does_not_fit() {
    let tick = PhysicsTick::default();
    let mut velocity = Velocity::new();
    velocity.current = Vec3::new(i64::MAX, 0, 0);
    velocity.added = Vec3::new(i64::MAX, 0, 0);
    let mut position = Vec3::new(0, 0, 0);
    assert_eq!(
        apply_velocity(&mut velocity, &mut position, &plain(), 0, &tick),
        Err(PhysicsError::Overflow)
    );
    assert_eq!(velocity.added, Vec3::new(i64::MAX, 0, 0));
    assert_eq!(position, Vec3::new(0, 0, 0));
}

#[test]
fn step_below_the_floor_is_taken_though_the_fall_would_not_fit() {
    let tick = PhysicsTick::default();
    let mut velocity = Velocity::new();
    velocity.current = Vec3::new(0, i64::MIN, 0);
    velocity.added = Vec3::new(0, i64::MIN, 0);
    let mut position = Vec3::new(0, 0, 0);
    assert_eq!(apply_velocity(&mut velocity, &mut position, &plain(), 0, &tick), Ok(()));
    assert_eq!(position, Vec3::new(0, 0, 0));
    assert_eq!(velocity.current, Vec3::new(0, 0, 0));
}

#[test]
fn jump_writes_the_speed_that_reaches_the_height() {
    let mut velocity = Velocity::new();
    velocity.added = Vec3::new(5, 77, 6);
    let scalars = Scalars {
        speed: 1_000_000,
        acceleration: 1_000_000,
        damping: 0,
        gravity: 1_000_000,
        jump_height: 1_000_000,
    };
    jump(&mut velocity, InputAction::Jump, &scalars, BASE_GRAVITY, BASE_JUMP_HEIGHT);
    assert_eq!(velocity.added, Vec3::new(5, 6_264_183, 6));
}

#[test]
fn jump_does_nothing_without_the_input_edge() {
    let mut velocity = Velocity::new();
    velocity.added = Vec3::new(5, 77, 6);
    let scalars = Scalars {
        speed: 1_000_000,
        acceleration: 1_000_000,
        damping: 0,
        gravity: 1_000_000,
        jump_height: 1_000_000,
    };
    jump(&mut velocity, InputAction::Idle, &scalars, BASE_GRAVITY, BASE_JUMP_HEIGHT);
    assert_eq!(velocity.added, Vec3::new(5, 77, 6));
}

#[test]
fn jump_without_height_is_no_lift() {
    let mut velocity = Velocity::new();
    let scalars = Scalars {
        speed: 1_000_000,
        acceleration: 1_000_000,
        damping: 0,
        gravity: 1_000_000,
        jump_height: 0,
    };
    jump(&mut velocity, InputAction::Jump, &scalars, BASE_GRAVITY, BASE_JUMP_HEIGHT);
    assert_eq!(velocity.added, Vec3::new(0, 0, 0));
}

#[test]
fn jump_takes_the_largest_multipliers() {
    let mut velocity = Velocity::new();
    let scalars = Scalars {
        speed: 0,
        acceleration: 0,
        damping: 0,
        gravity: u32::MAX,
        jump_height: u32::MAX,
    };
    jump(&mut velocity, InputAction::Jump, &scalars, u32::MAX, u32::MAX);
    let g: u128 = (u32::MAX as u128 * u32::MAX as u128) / 1_000_000;
    let square = 2 * g * g;
    let speed = velocity.added.y as u128;
    assert!(speed * speed <= square);
    assert!((speed + 1) * (speed + 1) > square);
}

#[test]
fn input_from_keys_is_a_direction() {
    assert_eq!(InputMovement::from_keys(false, false, false, false).xy(), Vec2::new(0, 0));
    assert!(InputMovement::from_keys(false, false, false, false).is_zero());
    assert!(InputMovement::from_keys(true, true, true, true).is_zero());
    assert_eq!(InputMovement::from_keys(true, false, false, false).xy(), Vec2::new(-1_000_000, 0));
    assert_eq!(InputMovement::from_keys(false, true, false, false).xy(), Vec2::new(1_000_000, 0));
    assert_eq!(InputMovement::from_keys(false, false, true, false).xy(), Vec2::new(0, -1_000_000));
    assert_eq!(InputMovement::from_keys(false, false, false, true).xy(), Vec2::new(0, 1_000_000));
    let diagonal = InputMovement::from_keys(false, true, true, false);
    assert_eq!(diagonal.x(), 707_107);
    assert_eq!(diagonal.y(), -707_107);
    assert_eq!(diagonal.x0z(), Vec3::new(707_107, 0, -707_107));
    assert!(!diagonal.is_zero());
}

#[test]
fn input_action_follows_the_jump_key() {
    assert_eq!(InputAction::from_keys(true), InputAction::Jump);
    assert_eq!(InputAction::from_keys(false), InputAction::Idle);
    assert_eq!(InputAction::default(), InputAction::Idle);
    assert!(InputMovement::default().is_zero());
}

#[test]
fn refused_step_leaves_an_agent_that_would_fall_through_where_it_was() {
    let tick = PhysicsTick::default();
    let mut velocity = Velocity::new();
    velocity.current = Vec3::new(1_000_000_000, -10_000_000, 0);
    let mut position = Vec3::new(i64::MAX, 100_000, 0);
    assert_eq!(
        apply_velocity(&mut velocity, &mut position, &plain(), 0, &tick),
        Err(PhysicsError::Overflow)
    );
    assert_eq!(position, Vec3::new(i64::MAX, 100_000, 0));
    assert_eq!(velocity.current, Vec3::new(1_000_000_000, -10_000_000, 0));
}
