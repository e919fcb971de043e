//! Moving the agent to a point, at a speed.

use vstd::prelude::*;
use crate::actions::{ActionError, StopReason};
use crate::math::{over_time, Vec3};
use crate::movement::{direction, move_towards, spec_direction, spec_move_towards};
use crate::tick::PhysicsTick;
use crate::world::{Transform, World};

verus! {

/// Where to move, how fast, and whether to face the way.
#[derive(Clone, Copy, Debug, PartialEq, Eq, Structural)]
pub struct MoveConfig {
    /// The point to reach.
    pub target: Vec3,
    /// The speed, in fixed-point units per second.
    pub speed: u64,
    /// Whether the agent turns to face the way it travels.
    pub rotate: bool,
}

/// The target and speed of a move that runs or is paused.
#[derive(Clone, Copy, Debug, PartialEq, Eq, Structural)]
pub struct MoveBundle {
    pub target: Vec3,
    pub speed: u64,
}

/// Moves the agent to a point.
#[derive(Clone, Copy, Debug, PartialEq, Eq, Structural)]
pub struct MoveAction {
    /// What was asked for.
    pub config: MoveConfig,
    /// The move that runs or is paused.
    pub bundle: Option<MoveBundle>,
    /// The direction of travel that a running move turns the agent to.
    pub facing: Option<Vec3>,
}

/// The length of the step that `speed` covers in `dt` nanoseconds.
pub open spec fn step_length(speed: u64, dt: u64) -> u64 {
    over_time(speed as int, dt as int) as u64
}

impl MoveAction {
    /// A move that has not begun.
    pub fn new(config: MoveConfig) -> (r: Self)
        ensures
            r == (MoveAction { config, bundle: None, facing: None }),
    {
        MoveAction { config, bundle: None, facing: None }
    }

    /// The move that an action runs once started: that of a paused move,
    /// else the one asked for.
    pub open spec fn started_bundle(self) -> MoveBundle {
        match self.bundle {
            Some(bundle) => bundle,
            None => MoveBundle { target: self.config.target, speed: self.config.speed },
        }
    }

    /// The action once it is started for `agent`.
    pub open spec fn spec_on_start(self, agent: u64, world: Map<u64, Transform>) -> MoveAction {
        MoveAction {
            config: self.config,
            bundle: Some(self.started_bundle()),
            facing: if self.config.rotate && world.contains_key(agent) {
                spec_direction(world[agent].translation, self.started_bundle().target)
            } else {
                None
            },
        }
    }

    /// The action once it is stopped: only a pause keeps the move.
    pub open spec fn spec_on_stop(self, reason: StopReason) -> MoveAction {
        MoveAction {
            config: self.config,
            bundle: match reason {
                StopReason::Paused => self.bundle,
                _ => None,
            },
            facing: None,
        }
    }

    /// Starts or resumes the move of `agent`.
    pub fn on_start(&mut self, agent: u64, world: &World)
        ensures
            *final(self) == old(self).spec_on_start(agent, world@),
    {
        let bundle = match self.bundle {
            Some(bundle) => bundle,
            None => MoveBundle { target: self.config.target, speed: self.config.speed },
        };
        self.bundle = Some(bundle);
        self.facing = None;
        if self.config.rotate {
            if let Some(transform) = world.get(agent) {
                self.facing = direction(transform.translation, bundle.target);
            }
        }
    }

    /// Stops the move.
    pub fn on_stop(&mut self, reason: StopReason)
        ensures
            *final(self) == old(self).spec_on_stop(reason),
    {
        match reason {
            StopReason::Paused => {},
            _ => {
                self.bundle = None;
            },
        }
        self.facing = None;
    }

    /// What a tick of `dt` nanoseconds gives for `agent`: whether the target
    /// is reached, or why the step could not be made. A move that does not
    /// run makes no step.
    pub open spec fn spec_tick_result(self, agent: u64, world: Map<u64, Transform>, dt: u64)
        -> Result<bool, ActionError> {
        match self.bundle {
            None => Ok(false),
            Some(bundle) => if !world.contains_key(agent) {
                Err(ActionError::MissingTarget)
            } else {
                match spec_move_towards(
                    world[agent].translation,
                    bundle.target,
                    step_length(bundle.speed, dt),
                ) {
                    None => Err(ActionError::Overflow),
                    Some(reached) => Ok(reached == bundle.target),
                }
            },
        }
    }

    /// The world after a tick of `dt` nanoseconds: the agent has made its
    /// step, and nothing else has changed.
    pub open spec fn spec_tick_world(self, agent: u64, world: Map<u64, Transform>, dt: u64)
        -> Map<u64, Transform> {
        match self.bundle {
            Some(bundle) if world.contains_key(agent) => match spec_move_towards(
                world[agent].translation,
                bundle.target,
                step_length(bundle.speed, dt),
            ) {
                Some(reached) => world.insert(
                    agent,
                    Transform { translation: reached, rotation: world[agent].rotation },
                ),
                None => world,
            },
            _ => world,
        }
    }

    /// Moves `agent` one step toward the target and says whether it is
    /// reached: whether the agent is now at the target, exactly.
    pub fn tick(&self, agent: u64, world: &mut World, tick: &PhysicsTick) -> (r: Result<
        bool,
        ActionError,
    >)
        ensures
            r == self.spec_tick_result(agent, old(world)@, tick@.delta as u64),
            final(world)@ == self.spec_tick_world(agent, old(world)@, tick@.delta as u64),
            r matches Ok(arrived) ==> (self.bundle matches Some(bundle) ==> {
                &&& final(world)@.contains_key(agent)
                &&& arrived == (final(world)@[agent].translation == bundle.target)
            }),
            r.is_err() ==> final(world)@ == old(world)@,
    {
        let bundle = match self.bundle {
            Some(bundle) => bundle,
            None => {
                return Ok(false);
            },
        };
        let transform = match world.get(agent) {
            Some(transform) => transform,
            None => {
                return Err(ActionError::MissingTarget);
            },
        };
        let dt: u64 = tick.delta();
        assert(0 <= bundle.speed * dt <= 0xffff_ffff_ffff_ffff * 1_000_000_000)
            by (nonlinear_arith)
            requires
                0 <= bundle.speed <= 0xffff_ffff_ffff_ffff,
                0 <= dt <= 1_000_000_000,
        ;
        let step: u64 = ((bundle.speed as u128 * dt as u128) / 1_000_000_000) as u64;
        match move_towards(transform.translation, bundle.target, step) {
            None => Err(ActionError::Overflow),
            Some(reached) => {
                world.insert(agent, Transform { translation: reached, rotation: transform.rotation });
                Ok(reached.x == bundle.target.x && reached.y == bundle.target.y && reached.z
                    == bundle.target.z)
            },
        }
    }
}

/// A move that is paused and resumed goes on to the target and at the
/// speed that it had.
pub proof fn lemma_pause_resume_keeps_move(
    action: MoveAction,
    agent: u64,
    world: Map<u64, Transform>,
)
    requires
        action.bundle.is_some(),
    ensures
        action.spec_on_stop(StopReason::Paused).spec_on_start(agent, world).bundle == action.bundle,
{
}

} // verus!
