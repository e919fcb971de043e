use simcore::actions::{Action, ActionQueue, AddConfig, QueueState, WaitAction};
use simcore::input::{InputAction, InputMovement};
use simcore::interpolation::Lerp;
use simcore::math::{Quat, Vec2, Vec3};
use simcore::physics::{PhysicsBundle, PhysicsError, Scalars, Velocity};
use simcore::player::{
    movement, on_ground_change, set_ground_state, GroundProbe, GroundState, PlayerBundle,
    PlayerHistory, SurfaceTag, TickInput,
};
use simcore::simulation::run_tick;
use simcore::tick::{PhysicsTick, TickSignal};
use simcore::world::{Transform, World};

fn plain() -> Scalars {
    Scalars { speed: 1_000_000, acceleration: 1_000_000, damping: 0, gravity: 0, jump_height: 0 }
}

#[test]
fn probe_result_gives_the_ground() {
    assert_eq!(GroundState::from_probe(None), GroundState::Airborne);
    assert_eq!(GroundState::from_probe(Some(SurfaceTag::Ice)), GroundState::Slippery);
    assert_eq!(GroundState::from_probe(Some(SurfaceTag::Conveyor)), GroundState::Conveyor);
    assert_eq!(GroundState::from_probe(Some(SurfaceTag::Solid)), GroundState::Normal);
    assert_eq!(GroundState::default(), GroundState::Normal);
}

#[test]
fn tuning_table_gives_the_multipliers_of_each_ground() {
    assert_eq!(
        GroundState::Airborne.scalars(),
        Scalars {
            speed: 1_000_000,
            acceleration: 200_000,
            damping: 200_000,
            gravity: 1_000_000,
            jump_height: 0
        }
    );
    assert_eq!(
        GroundState::Normal.scalars(),
        Scalars {
            speed: 1_000_000,
            acceleration: 1_000_000,
            damping: 1_000_000,
            gravity: 1_000_000,
            jump_height: 1_000_000
        }
    );
    assert_eq!(
        GroundState::Slippery.scalars(),
        Scalars {
            speed: 1_500_000,
            acceleration: 100_000,
            damping: 10_000,
            gravity: 1_000_000,
            jump_height: 0
        }
    );
    assert_eq!(
        GroundState::Conveyor.scalars(),
        Scalars {
            speed: 1_000_000,
            acceleration: 1_000_000,
            damping: 0,
            gravity: 1_000_000,
            jump_height: 0
        }
    );
}

#[test]
fn ground_is_written_only_on_change() {
    let mut ground = GroundState::Normal;
    let mut history = PlayerHistory::new();
    history.velocity_on_ground_change = Vec3::new(1, 2, 3);
    let before = history;
    assert!(!set_ground_state(&mut ground, &mut history, Some(SurfaceTag::Solid)));
    assert_eq!(ground, GroundState::Normal);
    assert_eq!(history, before);
    assert!(set_ground_state(&mut ground, &mut history, Some(SurfaceTag::Ice)));
    assert_eq!(ground, GroundState::Slippery);
    assert_eq!(history.previous_ground_state, GroundState::Normal);
    assert_eq!(history.velocity_on_ground_change, Vec3::new(1, 2, 3));
    assert!(!set_ground_state(&mut ground, &mut history, Some(SurfaceTag::Ice)));
    assert_eq!(history.previous_ground_state, GroundState::Normal);
    assert!(set_ground_state(&mut ground, &mut history, None));
    assert_eq!(ground, GroundState::Airborne);
    assert_eq!(history.previous_ground_state, GroundState::Slippery);
}

#[test]
fn ground_change_snapshots_the_instant_and_sets_the_tuning() {
    let mut history = PlayerHistory::new();
    history.previous_ground_state = GroundState::Airborne;
    let mut scalars = plain();
    let mut velocity = Velocity::new();
    velocity.current = Vec3::new(3_000_000, 0, 4_000_000);
    velocity.target = Vec3::new(9, 9, 9);
    velocity.added = Vec3::new(8, 8, 8);
    let input = InputMovement::from_keys(false, true, false, false);
    on_ground_change(
        GroundState::Conveyor,
        &velocity,
        &input,
        Vec3::new(0, 0, -1_000_000),
        &mut history,
        &mut scalars,
    );
    assert_eq!(history.input_on_ground_change, Vec3::new(1_000_000, 0, 0));
    assert_eq!(history.velocity_on_ground_change, Vec3::new(3_000_000, 0, 4_000_000));
    assert_eq!(history.forward_on_ground_change, Vec3::new(0, 0, -1_000_000));
    assert_eq!(history.previous_ground_state, GroundState::Airborne);
    assert_eq!(scalars, GroundState::Conveyor.scalars());
}

#[test]
fn conveyor_captures_the_speed_of_the_transition() {
    let mut history = PlayerHistory::new();
    history.velocity_on_ground_change = Vec3::new(3_000_000, 0, 4_000_000);
    assert_eq!(history.forward_speed(), 5_000_000);
    history.velocity_on_ground_change = Vec3::new(3_000_000, 123_456_789, 4_000_000);
    assert_eq!(history.forward_speed(), 5_000_000);
    history.velocity_on_ground_change = Vec3::new(-3_000_000, 0, -4_000_000);
    assert_eq!(history.forward_speed(), 5_000_000);
}

#[test]
fn conveyor_speed_is_at_least_one_unit() {
    let mut history = PlayerHistory::new();
    assert_eq!(history.forward_speed(), 1_000_000);
    history.velocity_on_ground_change = Vec3::new(600_000, 50_000_000, 700_000);
    assert_eq!(history.forward_speed(), 1_000_000);
    history.velocity_on_ground_change = Vec3::new(1_000_000, 0, 0);
    assert_eq!(history.forward_speed(), 1_000_000);
    history.velocity_on_ground_change = Vec3::new(1_000_001, 0, 0);
    assert_eq!(history.forward_speed(), 1_000_001);
}

#[test]
fn conveyor_ignores_the_steering_input() {
    let mut history = PlayerHistory::new();
    history.velocity_on_ground_change = Vec3::new(3_000_000, 0, 4_000_000);
    history.forward_on_ground_change = Vec3::new(0, 0, -1_000_000);
    let scalars = GroundState::Conveyor.scalars();
    let inputs = [
        InputMovement::from_keys(false, false, false, false),
        InputMovement::from_keys(true, false, false, false),
        InputMovement::from_keys(false, true, false, true),
        InputMovement(Vec2::new(123, -456)),
    ];
    for input in inputs {
        let mut velocity = Velocity::new();
        velocity.current = Vec3::new(1, 2, 3);
        assert_eq!(movement(&mut velocity, GroundState::Conveyor, &history, &scalars, &input), Ok(()));
        assert_eq!(velocity.target, Vec3::new(0, 0, -5_000_000));
        assert_eq!(velocity.current, Vec3::new(1, 2, 3));
    }
}

#[test]
fn steering_is_scaled_by_the_speed_of_the_ground() {
    let history = PlayerHistory::new();
    let input = InputMovement::from_keys(false, true, false, false);
    let mut velocity = Velocity::new();
    let slippery = GroundState::Slippery.scalars();
    assert_eq!(movement(&mut velocity, GroundState::Slippery, &history, &slippery, &input), Ok(()));
    assert_eq!(velocity.target, Vec3::new(1_500_000, 0, 0));
    let normal = GroundState::Normal.scalars();
    let back = InputMovement::from_keys(false, false, false, true);
    assert_eq!(movement(&mut velocity, GroundState::Normal, &history, &normal, &back), Ok(()));
    assert_eq!(velocity.target, Vec3::new(0, 0, 1_000_000));
    let still = InputMovement::default();
    assert_eq!(movement(&mut velocity, GroundState::Airborne, &history, &normal, &still), Ok(()));
    assert_eq!(velocity.target, Vec3::new(0, 0, 0));
}

#[test]
fn steering_is_refused_where_the_target_does_not_fit() {
    let mut history = PlayerHistory::new();
    history.velocity_on_ground_change = Vec3::new(i64::MAX, 0, 0);
    history.forward_on_ground_change = Vec3::new(i64::MAX, 0, 0);
    let mut velocity = Velocity::new();
    velocity.target = Vec3::new(4, 5, 6);
    assert_eq!(
        movement(
            &mut velocity,
            GroundState::Conveyor,
            &history,
            &plain(),
            &InputMovement::default()
        ),
        Err(PhysicsError::Overflow)
    );
    assert_eq!(velocity.target, Vec3::new(4, 5, 6));
    let wide = Scalars { speed: u32::MAX, ..plain() };
    let far = InputMovement(Vec2::new(i64::MAX, 0));
    assert_eq!(
        movement(&mut velocity, GroundState::Normal, &history, &wide, &far),
        Err(PhysicsError::Overflow)
    );
    assert_eq!(velocity.target, Vec3::new(4, 5, 6));
}

fn given(probe: Option<SurfaceTag>, input: InputMovement, action: InputAction) -> TickInput {
    TickInput { probe, input, action, forward: Vec3::new(0, 0, -1_000_000) }
}

#[test]
fn probe_is_cast_straight_down_past_the_feet() {
    assert_eq!(
        GroundProbe::beneath(3, Vec3::new(1, 2, 3)),
        Some(GroundProbe {
            origin: Vec3::new(1, 100_002, 3),
            direction: Vec3::new(0, -1_000_000, 0),
            max_distance: 200_000,
            exclude: 3
        })
    );
    assert_eq!(GroundProbe::beneath(3, Vec3::new(1, i64::MAX - 99_999, 3)), None);
    assert!(GroundProbe::beneath(3, Vec3::new(1, i64::MAX - 100_000, 3)).is_some());
}

#[test]
fn default_player_rests_on_normal_ground() {
    let player = PlayerBundle::default();
    assert_eq!(player.ground_state(), GroundState::Normal);
    assert_eq!(player.history(), PlayerHistory::new());
    assert_eq!(player.scalars(), GroundState::Normal.scalars());
    assert_eq!(player.physics_bundle(), PhysicsBundle::default());
    assert_eq!(player.physics_bundle().position, Vec3::new(0, 0, 0));
    assert_eq!(PlayerBundle::at(Vec3::new(1, 2, 3)).physics_bundle().position, Vec3::new(1, 2, 3));
}

#[test]
fn player_tick_runs_ground_steering_and_step_in_order() {
    let tick = PhysicsTick::default();
    let mut player = PlayerBundle::default();
    let right = InputMovement::from_keys(false, true, false, false);
    let (changed, moved) =
        player.tick(&given(Some(SurfaceTag::Ice), right, InputAction::Idle), &tick);
    assert!(changed);
    assert_eq!(moved, Ok(()));
    assert_eq!(player.ground_state(), GroundState::Slippery);
    assert_eq!(player.scalars(), GroundState::Slippery.scalars());
    assert_eq!(player.history().previous_ground_state, GroundState::Normal);
    assert_eq!(player.history().input_on_ground_change, Vec3::new(1_000_000, 0, 0));
    assert_eq!(player.history().velocity_on_ground_change, Vec3::new(0, 0, 0));
    let velocity = player.physics_bundle().velocity;
    assert_eq!(velocity.target, Vec3::new(1_500_000, 0, 0));
    assert_eq!(velocity.current, Vec3::new(148_500, -490_500, 0));
    assert_eq!(velocity.added, Vec3::new(0, 0, 0));
    assert_eq!(player.physics_bundle().position, Vec3::new(7_425, 0, 0));

    let (changed, moved) =
        player.tick(&given(Some(SurfaceTag::Ice), right, InputAction::Idle), &tick);
    assert!(!changed);
    assert_eq!(moved, Ok(()));
    assert_eq!(player.history().velocity_on_ground_change, Vec3::new(0, 0, 0));
    assert_eq!(player.physics_bundle().velocity.current, Vec3::new(295_515, 0, 0));
    assert_eq!(player.physics_bundle().position, Vec3::new(7_425 + 14_775, 0, 0));
}

#[test]
fn player_on_a_conveyor_is_carried_on_as_it_came() {
    let tick = PhysicsTick::default();
    let mut player = PlayerBundle::default();
    assert_eq!(player.add_impulse(Vec3::new(3_000_000, 0, 4_000_000)), Ok(()));
    let still = InputMovement::default();
    player.tick(&given(None, still, InputAction::Idle), &tick);
    assert_eq!(player.ground_state(), GroundState::Airborne);
    assert_eq!(player.physics_bundle().velocity.current, Vec3::new(2_400_000, -490_500, 3_200_000));
    let left = InputMovement::from_keys(true, false, false, false);
    let (changed, moved) =
        player.tick(&given(Some(SurfaceTag::Conveyor), left, InputAction::Idle), &tick);
    assert!(changed);
    assert_eq!(moved, Ok(()));
    assert_eq!(
        player.history().velocity_on_ground_change,
        Vec3::new(2_400_000, -490_500, 3_200_000)
    );
    assert_eq!(player.history().forward_speed(), 4_000_000);
    assert_eq!(player.physics_bundle().velocity.target, Vec3::new(0, 0, -4_000_000));
    for input in [still, left, InputMovement::from_keys(false, true, true, false)] {
        let (changed, _) =
            player.tick(&given(Some(SurfaceTag::Conveyor), input, InputAction::Idle), &tick);
        assert!(!changed);
        assert_eq!(player.physics_bundle().velocity.target, Vec3::new(0, 0, -4_000_000));
        assert_eq!(player.history().forward_speed(), 4_000_000);
    }
}

#[test]
fn player_jumps_on_the_tick_of_the_input_edge() {
    let tick = PhysicsTick::default();
    let mut player = PlayerBundle::default();
    let still = InputMovement::default();
    let (_, moved) = player.tick(&given(Some(SurfaceTag::Solid), still, InputAction::Jump), &tick);
    assert_eq!(moved, Ok(()));
    assert_eq!(player.physics_bundle().velocity.current, Vec3::new(0, 6_264_183 - 490_500, 0));
    assert_eq!(player.physics_bundle().velocity.added, Vec3::new(0, 0, 0));
    assert_eq!(player.physics_bundle().position, Vec3::new(0, 313_209, 0));
    let (changed, _) = player.tick(&given(None, still, InputAction::Jump), &tick);
    assert!(changed);
    assert_eq!(player.scalars().jump_height, 0);
    assert_eq!(
        player.physics_bundle().velocity.current,
        Vec3::new(0, 6_264_183 - 490_500 - 490_500, 0)
    );
}

#[test]
fn player_tick_stops_where_a_coordinate_does_not_fit() {
    let tick = PhysicsTick::default();
    let mut player = PlayerBundle::at(Vec3::new(i64::MAX, 0, 0));
    assert_eq!(player.add_impulse(Vec3::new(1_000_000_000, 0, 0)), Ok(()));
    assert_eq!(player.add_impulse(Vec3::new(i64::MAX, 0, 0)), Err(PhysicsError::Overflow));
    let right = InputMovement::from_keys(false, true, false, false);
    let (changed, moved) = player.tick(&given(None, right, InputAction::Idle), &tick);
    assert!(changed);
    assert_eq!(moved, Err(PhysicsError::Overflow));
    assert_eq!(player.ground_state(), GroundState::Airborne);
    assert_eq!(player.physics_bundle().position, Vec3::new(i64::MAX, 0, 0));
    assert_eq!(player.physics_bundle().velocity.target, Vec3::new(1_000_000, 0, 0));
    assert_eq!(player.physics_bundle().velocity.added, Vec3::new(1_000_000_000, 0, 0));
}

#[test]
fn velocity_moves_its_horizontal_part_toward_a_target() {
    let mut velocity = Velocity::new();
    velocity.current = Vec3::new(0, 7_000_000, 0);
    assert_eq!(velocity.move_towards(Vec3::new(3_000_000, 0, 4_000_000), 1_000_000), Ok(()));
    assert_eq!(velocity.current, Vec3::new(600_000, 7_000_000, 800_000));
    assert_eq!(velocity.move_towards(Vec3::new(3_000_000, 0, 4_000_000), 9_000_000), Ok(()));
    assert_eq!(velocity.current, Vec3::new(3_000_000, 7_000_000, 4_000_000));
    velocity.current = Vec3::new(i64::MIN, 1, 0);
    assert_eq!(velocity.move_towards(Vec3::new(1, 0, 0), 5), Err(PhysicsError::Overflow));
    assert_eq!(velocity.current, Vec3::new(i64::MIN, 1, 0));
}

#[test]
fn whole_tick_runs_player_queue_and_snapshot_in_order() {
    let mut clock = PhysicsTick::default();
    let mut player = PlayerBundle::default();
    let mut world = World::new();
    world.insert(1, Transform::from_translation(Vec3::new(0, 0, 0)));
    let mut queue = ActionQueue::new(1);
    queue.enqueue(Action::Wait(WaitAction::new(100_000_000)), AddConfig::default(), &world);
    let turned = Quat { x: 0, y: 1_000_000, z: 0, w: 0 };
    let mut buffer = Lerp::new(Transform::from_translation(player.physics_bundle().position));
    let right = InputMovement::from_keys(false, true, false, false);
    let input = given(Some(SurfaceTag::Conveyor), right, InputAction::Idle);
    assert_eq!(player.add_impulse(Vec3::new(2_000_000, 0, 0)), Ok(()));

    assert_eq!(clock.advance(100_000_000), Ok(TickSignal::OneAndMore));
    let first = run_tick(&mut player, &mut queue, &mut world, &mut buffer, &input, turned, &clock);
    assert!(first.ground_changed);
    assert_eq!(first.physics, Ok(()));
    assert_eq!(first.action, Ok(false));
    assert_eq!(first.rotation, None);
    assert_eq!(player.physics_bundle().position, Vec3::new(100_000, 0, -50_000));
    assert_eq!(buffer.previous, Transform::from_translation(Vec3::new(0, 0, 0)));
    assert_eq!(buffer.current, Transform::from_translation(Vec3::new(0, 0, 0)));

    assert_eq!(clock.advance(100_000_000), Ok(TickSignal::One));
    let second =
        run_tick(&mut player, &mut queue, &mut world, &mut buffer, &input, turned, &clock);
    assert!(!second.ground_changed);
    assert_eq!(second.action, Ok(true));
    assert_eq!(queue.state(), QueueState::Idle);
    assert_eq!(player.physics_bundle().position, Vec3::new(200_000, 0, -150_000));
    assert_eq!(buffer.previous, Transform::from_translation(Vec3::new(0, 0, 0)));
    assert_eq!(
        buffer.current,
        Transform { translation: Vec3::new(200_000, 0, -150_000), rotation: turned }
    );
}
