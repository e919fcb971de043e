//! The controlled agent: the ground beneath it, the tuning that the ground
//! sets, steering and jumping.

use vstd::prelude::*;
use crate::input::{InputAction, InputMovement};
use crate::math::{
    fits, isqrt, lemma_sqrt_floor_of_square, narrow, scale, scaled, sqrt_floor, trunc_div, Vec3,
    UNIT,
};
use crate::physics::{
    apply_velocity, can_step, stepped, PhysicsBundle, PhysicsError, Scalars, Velocity, Wide3,
    BASE_GRAVITY,
};
use crate::tick::PhysicsTick;

verus! {

/// The height of a jump on normal ground, in fixed-point units.
pub const BASE_JUMP_HEIGHT: u32 = 2_000_000;

/// What the probe cast down from the agent has hit.
#[derive(Clone, Copy, Debug, PartialEq, Eq, Structural)]
pub enum SurfaceTag {
    /// Ice.
    Ice,
    /// A conveyor.
    Conveyor,
    /// Any other static surface.
    Solid,
}

/// The kind of ground beneath the agent.
#[derive(Clone, Copy, Debug, PartialEq, Eq, Structural)]
pub enum GroundState {
    /// Nothing beneath the agent.
    Airborne,
    /// Ordinary ground.
    Normal,
    /// Ice: fast, with little grip.
    Slippery,
    /// A conveyor, which carries the agent on as it came.
    Conveyor,
}

impl Default for GroundState {
    fn default() -> (r: Self)
        ensures
            r == GroundState::Normal,
    {
        GroundState::Normal
    }
}

impl GroundState {
    /// The ground that a probe result stands for.
    pub open spec fn spec_from_probe(probe: Option<SurfaceTag>) -> GroundState {
        match probe {
            None => GroundState::Airborne,
            Some(SurfaceTag::Ice) => GroundState::Slippery,
            Some(SurfaceTag::Conveyor) => GroundState::Conveyor,
            Some(SurfaceTag::Solid) => GroundState::Normal,
        }
    }

    /// The ground that a probe result stands for.
    #[verifier::when_used_as_spec(spec_from_probe)]
    pub fn from_probe(probe: Option<SurfaceTag>) -> (r: Self)
        ensures
            r == Self::spec_from_probe(probe),
    {
        match probe {
            None => GroundState::Airborne,
            Some(SurfaceTag::Ice) => GroundState::Slippery,
            Some(SurfaceTag::Conveyor) => GroundState::Conveyor,
            Some(SurfaceTag::Solid) => GroundState::Normal,
        }
    }

    /// The multipliers that this ground sets.
    pub open spec fn spec_scalars(self) -> Scalars {
        match self {
            GroundState::Airborne => Scalars {
                speed: 1_000_000,
                acceleration: 200_000,
                damping: 200_000,
                gravity: 1_000_000,
                jump_height: 0,
            },
            GroundState::Normal => Scalars {
                speed: 1_000_000,
                acceleration: 1_000_000,
                damping: 1_000_000,
                gravity: 1_000_000,
                jump_height: 1_000_000,
            },
            GroundState::Slippery => Scalars {
                speed: 1_500_000,
                acceleration: 100_000,
                damping: 10_000,
                gravity: 1_000_000,
                jump_height: 0,
            },
            GroundState::Conveyor => Scalars {
                speed: 1_000_000,
                acceleration: 1_000_000,
                damping: 0,
                gravity: 1_000_000,
                jump_height: 0,
            },
        }
    }

    /// The multipliers that this ground sets.
    #[verifier::when_used_as_spec(spec_scalars)]
    pub fn scalars(self) -> (r: Scalars)
        ensures
            r == self.spec_scalars(),
    {
        match self {
            GroundState::Airborne => Scalars {
                speed: 1_000_000,
                acceleration: 200_000,
                damping: 200_000,
                gravity: 1_000_000,
                jump_height: 0,
            },
            GroundState::Normal => Scalars {
                speed: 1_000_000,
                acceleration: 1_000_000,
                damping: 1_000_000,
                gravity: 1_000_000,
                jump_height: 1_000_000,
            },
            GroundState::Slippery => Scalars {
                speed: 1_500_000,
                acceleration: 100_000,
                damping: 10_000,
                gravity: 1_000_000,
                jump_height: 0,
            },
            GroundState::Conveyor => Scalars {
                speed: 1_000_000,
                acceleration: 1_000_000,
                damping: 0,
                gravity: 1_000_000,
                jump_height: 0,
            },
        }
    }
}

/// What the agent remembers of the instant at which the ground last changed.
#[derive(Clone, Copy, Debug, PartialEq, Eq, Structural)]
pub struct PlayerHistory {
    /// The steering input at that instant.
    pub input_on_ground_change: Vec3,
    /// The settled velocity at that instant.
    pub velocity_on_ground_change: Vec3,
    /// The direction that the agent faced at that instant.
    pub forward_on_ground_change: Vec3,
    /// The ground before the change.
    pub previous_ground_state: GroundState,
}

impl PlayerHistory {
    /// A memory with nothing in it, on normal ground.
    pub fn new() -> (r: Self)
        ensures
            r == (PlayerHistory {
                input_on_ground_change: Vec3::zero(),
                velocity_on_ground_change: Vec3::zero(),
                forward_on_ground_change: Vec3::zero(),
                previous_ground_state: GroundState::Normal,
            }),
    {
        PlayerHistory {
            input_on_ground_change: Vec3::zero(),
            velocity_on_ground_change: Vec3::zero(),
            forward_on_ground_change: Vec3::zero(),
            previous_ground_state: GroundState::Normal,
        }
    }

    /// The horizontal speed at the last change of ground, and at least one unit.
    pub open spec fn spec_forward_speed(self) -> nat {
        let speed = self.velocity_on_ground_change.spec_length_xz();
        if speed < UNIT as nat {
            UNIT as nat
        } else {
            speed
        }
    }

    /// The horizontal speed at the last change of ground, and at least one unit.
    pub fn forward_speed(&self) -> (r: u64)
        ensures
            r == self.spec_forward_speed(),
    {
        let speed: u64 = self.velocity_on_ground_change.length_xz();
        if speed < UNIT as u64 {
            UNIT as u64
        } else {
            speed
        }
    }
}

/// Where the horizontal velocity at the last change of ground has a whole
/// length of at least one unit, that length is the speed of the conveyor:
/// the vertical part counts for nothing.
pub proof fn lemma_forward_speed_is_horizontal_length(history: PlayerHistory, length: nat)
    requires
        history.velocity_on_ground_change.x * history.velocity_on_ground_change.x
            + history.velocity_on_ground_change.z * history.velocity_on_ground_change.z == length
            * length,
        length >= UNIT,
    ensures
        history.spec_forward_speed() == length,
{
    lemma_sqrt_floor_of_square(length);
}

/// The ray that is cast to find the ground beneath an agent.
#[derive(Clone, Copy, Debug, PartialEq, Eq, Structural)]
pub struct GroundProbe {
    /// Where the ray begins.
    pub origin: Vec3,
    /// The way the ray points, of length one.
    pub direction: Vec3,
    /// How far the ray reaches.
    pub max_distance: i64,
    /// The entity that the ray passes through: the agent itself.
    pub exclude: u64,
}

/// How far above the feet of the agent the probe begins.
pub const PROBE_LIFT: i64 = 100_000;

/// How far the probe reaches.
pub const PROBE_REACH: i64 = 200_000;

impl GroundProbe {
    /// The probe for `agent` at `position`: straight down, from a little
    /// above its feet to as much below them. `None` where the beginning
    /// of the ray cannot be stored.
    pub fn beneath(agent: u64, position: Vec3) -> (r: Option<Self>)
        ensures
            r == (if fits(position.y + PROBE_LIFT) {
                Some(
                    GroundProbe {
                        origin: Vec3 {
                            x: position.x,
                            y: (position.y + PROBE_LIFT) as i64,
                            z: position.z,
                        },
                        direction: Vec3 { x: 0, y: (-1_000_000i64), z: 0 },
                        max_distance: PROBE_REACH,
                        exclude: agent,
                    },
                )
            } else {
                None
            }),
    {
        match narrow(position.y as i128 + PROBE_LIFT as i128) {
            Some(y) => Some(
                GroundProbe {
                    origin: Vec3 { x: position.x, y, z: position.z },
                    direction: Vec3 { x: 0, y: -1_000_000, z: 0 },
                    max_distance: PROBE_REACH,
                    exclude: agent,
                },
            ),
            None => None,
        }
    }
}

/// Writes the ground that `probe` stands for, if it differs from the ground
/// stored, and says whether it did. The ground left behind is remembered.
pub fn set_ground_state(
    ground_state: &mut GroundState,
    history: &mut PlayerHistory,
    probe: Option<SurfaceTag>,
) -> (changed: bool)
    ensures
        changed == (*old(ground_state) != GroundState::spec_from_probe(probe)),
        *final(ground_state) == GroundState::spec_from_probe(probe),
        *final(history) == (if changed {
            PlayerHistory { previous_ground_state: *old(ground_state), ..*old(history) }
        } else {
            *old(history)
        }),
{
    let state = GroundState::from_probe(probe);
    if *ground_state != state {
        history.previous_ground_state = *ground_state;
        *ground_state = state;
        true
    } else {
        false
    }
}

/// Takes in a change of ground: remembers input, velocity and facing of this
/// instant, and sets every multiplier to what the new ground gives.
pub fn on_ground_change(
    ground_state: GroundState,
    velocity: &Velocity,
    input: &InputMovement,
    forward: Vec3,
    history: &mut PlayerHistory,
    scalars: &mut Scalars,
)
    ensures
        *final(history) == (PlayerHistory {
            input_on_ground_change: Vec3 { x: input.0.x, y: 0, z: input.0.y },
            velocity_on_ground_change: velocity.current,
            forward_on_ground_change: forward,
            previous_ground_state: old(history).previous_ground_state,
        }),
        *final(scalars) == ground_state.spec_scalars(),
{
    history.input_on_ground_change = input.x0z();
    history.velocity_on_ground_change = velocity.current;
    history.forward_on_ground_change = forward;
    *scalars = ground_state.scalars();
}

/// The steering velocity on a conveyor: the facing at the last change of
/// ground, at the speed of that instant.
pub open spec fn conveyor_target(history: PlayerHistory) -> Wide3 {
    let speed = history.spec_forward_speed() as int;
    Wide3 {
        x: trunc_div(history.forward_on_ground_change.x * speed, UNIT as int),
        y: trunc_div(history.forward_on_ground_change.y * speed, UNIT as int),
        z: trunc_div(history.forward_on_ground_change.z * speed, UNIT as int),
    }
}

/// The steering velocity off a conveyor: the input at the speed that the
/// ground allows.
pub open spec fn steering_target(input: InputMovement, scalars: Scalars) -> Wide3 {
    Wide3 {
        x: scaled(input.0.x as int, scalars.speed as int),
        y: 0,
        z: scaled(input.0.y as int, scalars.speed as int),
    }
}

/// The steering velocity that `movement` asks for.
pub open spec fn movement_target(
    ground_state: GroundState,
    history: PlayerHistory,
    scalars: Scalars,
    input: InputMovement,
) -> Wide3 {
    if ground_state == GroundState::Conveyor {
        conveyor_target(history)
    } else {
        steering_target(input, scalars)
    }
}

/// On a conveyor the steering input makes no difference.
pub proof fn lemma_conveyor_ignores_input(
    history: PlayerHistory,
    scalars: Scalars,
    input: InputMovement,
    other: InputMovement,
)
    ensures
        movement_target(GroundState::Conveyor, history, scalars, input) == movement_target(
            GroundState::Conveyor,
            history,
            scalars,
            other,
        ),
{
}

/// The three parts of a vector that fit, as a vector.
fn narrow3(x: i128, y: i128, z: i128) -> (r: Option<Vec3>)
    ensures
        r.is_some() <==> fits(x as int) && fits(y as int) && fits(z as int),
        r matches Some(v) ==> v == (Vec3 { x: x as i64, y: y as i64, z: z as i64 }),
{
    match (narrow(x), narrow(y), narrow(z)) {
        (Some(x), Some(y), Some(z)) => Some(Vec3 { x, y, z }),
        _ => None,
    }
}

/// The product of a coordinate and a speed, divided by one unit.
fn at_speed(direction: i64, speed: u64) -> (r: i128)
    ensures
        r == trunc_div(direction * speed, UNIT as int),
{
    let wide: i128 = direction as i128;
    let by: i128 = speed as i128;
    assert(-0x7fff_ffff_ffff_ffff_ffff_ffff_ffff_ffff <= wide * by
        <= 0x7fff_ffff_ffff_ffff_ffff_ffff_ffff_ffff) by (nonlinear_arith)
        requires
            -0x8000_0000_0000_0000 <= wide <= 0x7fff_ffff_ffff_ffff,
            0 <= by <= 0xffff_ffff_ffff_ffff,
    ;
    (wide * by) / (UNIT as i128)
}

/// Sets the steering velocity of this tick.
///
/// It is refused, and nothing changes, where a coordinate of the new
/// steering velocity cannot be stored.
pub fn movement(
    velocity: &mut Velocity,
    ground_state: GroundState,
    history: &PlayerHistory,
    scalars: &Scalars,
    input: &InputMovement,
) -> (r: Result<(), PhysicsError>)
    ensures
        r.is_ok() <==> movement_target(ground_state, *history, *scalars, *input).fits(),
        r.is_ok() ==> *final(velocity) == (Velocity {
            target: movement_target(ground_state, *history, *scalars, *input).narrow(),
            ..*old(velocity)
        }),
        r.is_err() ==> *final(velocity) == *old(velocity),
{
    let target = match ground_state {
        GroundState::Conveyor => {
            let speed: u64 = history.forward_speed();
            narrow3(
                at_speed(history.forward_on_ground_change.x, speed),
                at_speed(history.forward_on_ground_change.y, speed),
                at_speed(history.forward_on_ground_change.z, speed),
            )
        },
        _ => narrow3(
            scale(input.0.x as i128, scalars.speed as i128),
            0,
            scale(input.0.y as i128, scalars.speed as i128),
        ),
    };
    match target {
        Some(target) => {
            velocity.target = target;
            Ok(())
        },
        None => Err(PhysicsError::Overflow),
    }
}

/// The upward speed that lifts the agent to its jump height.
pub open spec fn jump_speed(scalars: Scalars, gravity_base: int, jump_height_base: int) -> nat {
    sqrt_floor(
        (2 * scaled(gravity_base, scalars.gravity as int) * scaled(
            jump_height_base,
            scalars.jump_height as int,
        )) as nat,
    )
}

/// Writes the jump impulse, on the frame in which a jump is asked for.
pub fn jump(
    velocity: &mut Velocity,
    action: InputAction,
    scalars: &Scalars,
    gravity_base: u32,
    jump_height_base: u32,
)
    ensures
        *final(velocity) == (if action == InputAction::Jump {
            Velocity {
                added: Vec3 {
                    y: jump_speed(*scalars, gravity_base as int, jump_height_base as int) as i64,
                    ..old(velocity).added
                },
                ..*old(velocity)
            }
        } else {
            *old(velocity)
        }),
        fits(jump_speed(*scalars, gravity_base as int, jump_height_base as int) as int),
{
    let gravity: i128 = scale(gravity_base as i128, scalars.gravity as i128);
    let height: i128 = scale(jump_height_base as i128, scalars.jump_height as i128);
    assert(0 <= 2 * gravity * height <= 0x1000_0000_0000_0000_0000_0000) by (nonlinear_arith)
        requires
            0 <= gravity <= 0x1_0000_0000 * 4295,
            0 <= height <= 0x1_0000_0000 * 4295,
    ;
    let speed: u64 = isqrt((2 * gravity * height) as u128);
    assert(speed < 0x4000_0000_0000_0000) by (nonlinear_arith)
        requires
            speed * speed <= 0x1000_0000_0000_0000_0000_0000,
    ;
    if let InputAction::Jump = action {
        velocity.added.y = speed as i64;
    }
}

/// The controlled agent: its ground, its memory of the last change of
/// ground, its motion, and the multipliers that its ground has set.
pub struct PlayerBundle {
    history: PlayerHistory,
    ground_state: GroundState,
    physics_bundle: PhysicsBundle,
    scalars: Scalars,
}

/// The mathematical state of the controlled agent.
pub struct PlayerModel {
    pub history: PlayerHistory,
    pub ground_state: GroundState,
    pub physics_bundle: PhysicsBundle,
    pub scalars: Scalars,
}

/// What the agent is given in one tick.
#[derive(Clone, Copy, Debug, PartialEq, Eq, Structural)]
pub struct TickInput {
    /// What the probe beneath the agent has hit.
    pub probe: Option<SurfaceTag>,
    /// The steering input.
    pub input: InputMovement,
    /// The one-shot action.
    pub action: InputAction,
    /// The direction that the agent faces.
    pub forward: Vec3,
}

impl PlayerModel {
    /// The agent once the ground beneath it is taken in: on a change of
    /// ground the instant is remembered and the multipliers are set, and
    /// else nothing changes.
    pub open spec fn grounded(self, given: TickInput) -> PlayerModel {
        let ground = GroundState::spec_from_probe(given.probe);
        if ground == self.ground_state {
            self
        } else {
            PlayerModel {
                history: PlayerHistory {
                    input_on_ground_change: Vec3 { x: given.input.0.x, y: 0, z: given.input.0.y },
                    velocity_on_ground_change: self.physics_bundle.velocity.current,
                    forward_on_ground_change: given.forward,
                    previous_ground_state: self.ground_state,
                },
                ground_state: ground,
                physics_bundle: self.physics_bundle,
                scalars: ground.spec_scalars(),
            }
        }
    }

    /// The steering velocity that the grounded agent asks for.
    pub open spec fn target(self, given: TickInput) -> Wide3 {
        movement_target(self.ground_state, self.history, self.scalars, given.input)
    }

    /// Whether the steering velocity can be stored.
    pub open spec fn can_steer(self, given: TickInput) -> bool {
        self.target(given).fits()
    }

    /// The velocity record of the grounded agent once steering and jump
    /// are taken in.
    pub open spec fn steered(self, given: TickInput) -> Velocity {
        let velocity = self.physics_bundle.velocity;
        Velocity {
            target: self.target(given).narrow(),
            current: velocity.current,
            added: if given.action == InputAction::Jump {
                Vec3 {
                    y: jump_speed(self.scalars, BASE_GRAVITY as int, BASE_JUMP_HEIGHT as int) as i64,
                    ..velocity.added
                }
            } else {
                velocity.added
            },
        }
    }

    /// The motion of the grounded agent once steering and jump are taken in.
    pub open spec fn steered_motion(self, given: TickInput) -> PhysicsBundle {
        PhysicsBundle { velocity: self.steered(given), position: self.physics_bundle.position }
    }

    /// Whether the integration step of the steered agent can be stored.
    pub open spec fn can_move(self, given: TickInput, dt: int) -> bool {
        can_step(self.steered_motion(given), self.scalars, BASE_GRAVITY as int, dt)
    }

    /// The grounded and steered agent once it has moved.
    pub open spec fn moved(self, given: TickInput, dt: int) -> PlayerModel {
        PlayerModel {
            physics_bundle: stepped(
                self.steered_motion(given),
                self.scalars,
                BASE_GRAVITY as int,
                dt,
            ),
            ..self
        }
    }

    /// The agent after one tick: the ground is taken in first, then
    /// steering and jump, then the agent moves. Where the steering
    /// velocity cannot be stored the tick ends with the ground taken in;
    /// where the step cannot be stored it ends with steering and jump
    /// taken in.
    pub open spec fn tick(self, given: TickInput, dt: int) -> PlayerModel {
        let grounded = self.grounded(given);
        if !grounded.can_steer(given) {
            grounded
        } else if !grounded.can_move(given, dt) {
            PlayerModel { physics_bundle: grounded.steered_motion(given), ..grounded }
        } else {
            grounded.moved(given, dt)
        }
    }

    /// Whether one tick runs to its end.
    pub open spec fn can_tick(self, given: TickInput, dt: int) -> bool {
        self.grounded(given).can_steer(given) && self.grounded(given).can_move(given, dt)
    }
}

impl View for PlayerBundle {
    type V = PlayerModel;

    closed spec fn view(&self) -> PlayerModel {
        PlayerModel {
            history: self.history,
            ground_state: self.ground_state,
            physics_bundle: self.physics_bundle,
            scalars: self.scalars,
        }
    }
}

impl Default for PlayerBundle {
    /// An agent at rest at the origin, on normal ground.
    fn default() -> (r: Self)
        ensures
            r@ == (PlayerModel {
                history: PlayerHistory {
                    input_on_ground_change: Vec3::zero(),
                    velocity_on_ground_change: Vec3::zero(),
                    forward_on_ground_change: Vec3::zero(),
                    previous_ground_state: GroundState::Normal,
                },
                ground_state: GroundState::Normal,
                physics_bundle: PhysicsBundle {
                    velocity: Velocity {
                        target: Vec3::zero(),
                        current: Vec3::zero(),
                        added: Vec3::zero(),
                    },
                    position: Vec3::zero(),
                },
                scalars: GroundState::Normal.spec_scalars(),
            }),
    {
        PlayerBundle {
            history: PlayerHistory::new(),
            ground_state: GroundState::Normal,
            physics_bundle: PhysicsBundle::default(),
            scalars: GroundState::Normal.scalars(),
        }
    }
}

impl PlayerBundle {
    /// An agent at rest at `position`, on normal ground.
    pub fn at(position: Vec3) -> (r: Self)
        ensures
            r@ == (PlayerModel {
                history: PlayerHistory {
                    input_on_ground_change: Vec3::zero(),
                    velocity_on_ground_change: Vec3::zero(),
                    forward_on_ground_change: Vec3::zero(),
                    previous_ground_state: GroundState::Normal,
                },
                ground_state: GroundState::Normal,
                physics_bundle: PhysicsBundle {
                    velocity: Velocity {
                        target: Vec3::zero(),
                        current: Vec3::zero(),
                        added: Vec3::zero(),
                    },
                    position,
                },
                scalars: GroundState::Normal.spec_scalars(),
            }),
    {
        PlayerBundle {
            history: PlayerHistory::new(),
            ground_state: GroundState::Normal,
            physics_bundle: PhysicsBundle { velocity: Velocity::new(), position },
            scalars: GroundState::Normal.scalars(),
        }
    }

    /// What the agent remembers of the last change of ground.
    pub fn history(&self) -> (r: PlayerHistory)
        ensures
            r == self@.history,
    {
        self.history
    }

    /// The ground beneath the agent.
    pub fn ground_state(&self) -> (r: GroundState)
        ensures
            r == self@.ground_state,
    {
        self.ground_state
    }

    /// The velocity record and the position of the agent.
    pub fn physics_bundle(&self) -> (r: PhysicsBundle)
        ensures
            r == self@.physics_bundle,
    {
        self.physics_bundle
    }

    /// The multipliers that the ground has set.
    pub fn scalars(&self) -> (r: Scalars)
        ensures
            r == self@.scalars,
    {
        self.scalars
    }

    /// Adds a one-shot impulse to those waiting for the next step.
    pub fn add_impulse(&mut self, v: Vec3) -> (r: Result<(), PhysicsError>)
        ensures
            r.is_ok() <==> old(self)@.physics_bundle.velocity.can_add(v),
            r.is_ok() ==> final(self)@ == (PlayerModel {
                physics_bundle: PhysicsBundle {
                    velocity: Velocity {
                        added: Vec3 {
                            x: (old(self)@.physics_bundle.velocity.added.x + v.x) as i64,
                            y: (old(self)@.physics_bundle.velocity.added.y + v.y) as i64,
                            z: (old(self)@.physics_bundle.velocity.added.z + v.z) as i64,
                        },
                        ..old(self)@.physics_bundle.velocity
                    },
                    position: old(self)@.physics_bundle.position,
                },
                ..old(self)@
            }),
            r.is_err() ==> final(self)@ == old(self)@,
    {
        self.physics_bundle.velocity.add(v)
    }

    /// Runs the agent for one tick, in this order: the ground beneath it is
    /// taken in, and on a change of ground the instant is remembered and
    /// the multipliers are set; steering and jump are taken in; the agent
    /// moves.
    ///
    /// Gives whether the ground changed, and whether the tick ran to its
    /// end: it stops where a coordinate cannot be stored.
    pub fn tick(&mut self, given: &TickInput, tick: &PhysicsTick) -> (r: (
        bool,
        Result<(), PhysicsError>,
    ))
        ensures
            final(self)@ == old(self)@.tick(*given, tick@.delta as int),
            r.0 == (old(self)@.ground_state != GroundState::spec_from_probe(given.probe)),
            r.1.is_ok() <==> old(self)@.can_tick(*given, tick@.delta as int),
    {
        let changed = set_ground_state(&mut self.ground_state, &mut self.history, given.probe);
        if changed {
            on_ground_change(
                self.ground_state,
                &self.physics_bundle.velocity,
                &given.input,
                given.forward,
                &mut self.history,
                &mut self.scalars,
            );
        }
        match movement(
            &mut self.physics_bundle.velocity,
            self.ground_state,
            &self.history,
            &self.scalars,
            &given.input,
        ) {
            Ok(()) => {},
            Err(error) => {
                return (changed, Err(error));
            },
        }
        jump(
            &mut self.physics_bundle.velocity,
            given.action,
            &self.scalars,
            BASE_GRAVITY,
            BASE_JUMP_HEIGHT,
        );
        let moved = apply_velocity(
            &mut self.physics_bundle.velocity,
            &mut self.physics_bundle.position,
            &self.scalars,
            BASE_GRAVITY,
            tick,
        );
        (changed, moved)
    }
}

/// The multipliers of an agent are those of the ground beneath it, once a
/// tick has taken a change of ground in.
pub proof fn lemma_tuning_follows_ground(player: PlayerModel, given: TickInput, dt: int)
    requires
        player.scalars == player.ground_state.spec_scalars() || player.ground_state
            != GroundState::spec_from_probe(given.probe),
    ensures
        player.tick(given, dt).ground_state == GroundState::spec_from_probe(given.probe),
        player.tick(given, dt).scalars == player.tick(given, dt).ground_state.spec_scalars(),
{
}

/// A tick on unchanged ground leaves the multipliers and the memory of the
/// last change as they are.
pub proof fn lemma_tuning_changes_only_on_the_edge(player: PlayerModel, given: TickInput, dt: int)
    requires
        player.ground_state == GroundState::spec_from_probe(given.probe),
    ensures
        player.tick(given, dt).scalars == player.scalars,
        player.tick(given, dt).history == player.history,
        player.tick(given, dt).ground_state == player.ground_state,
{
}

} // verus!
