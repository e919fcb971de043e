//! Scripted actions: timed, resumable units of behaviour, and the queue
//! that runs them one after another.

use vstd::prelude::*;
use crate::interpolation::RotationBlend;
use crate::tick::PhysicsTick;
use crate::world::{Transform, World};

pub mod lerp_action;
pub mod move_action;
pub mod queue;
pub mod wait_action;

pub use queue::{ActionQueue, AddConfig, QueueModel, QueueState, Repeat};

pub use lerp_action::{LerpAction, LerpConfig, LerpProgress, LerpType};
pub use move_action::{MoveAction, MoveBundle, MoveConfig};
pub use wait_action::WaitAction;

verus! {

/// Why an action was stopped.
#[derive(Clone, Copy, Debug, PartialEq, Eq, Structural)]
pub enum StopReason {
    /// The action ran to its end.
    Completed,
    /// The action was called off.
    Canceled,
    /// The action was paused and may be resumed.
    Paused,
}

/// Why an action could not run a tick.
#[derive(Clone, Copy, Debug, PartialEq, Eq, Structural)]
pub enum ActionError {
    /// The entity that the action moves does not exist.
    MissingTarget,
    /// A distance to cover does not fit in a coordinate.
    Overflow,
}

/// A scripted action.
#[derive(Clone, Copy, Debug, PartialEq, Eq, Structural)]
pub enum Action {
    /// Wait for a duration.
    Wait(WaitAction),
    /// Move the agent to a point.
    Move(MoveAction),
    /// Blend a value of an entity.
    Lerp(LerpAction),
}

impl Action {
    /// The action once it is started for `agent`.
    pub open spec fn spec_on_start(self, agent: u64, world: Map<u64, Transform>) -> Action {
        match self {
            Action::Wait(wait) => Action::Wait(wait.spec_on_start()),
            Action::Move(moving) => Action::Move(moving.spec_on_start(agent, world)),
            Action::Lerp(lerp) => Action::Lerp(lerp.spec_on_start(world)),
        }
    }

    /// The action once it is stopped.
    pub open spec fn spec_on_stop(self, reason: StopReason) -> Action {
        match self {
            Action::Wait(wait) => Action::Wait(wait.spec_on_stop(reason)),
            Action::Move(moving) => Action::Move(moving.spec_on_stop(reason)),
            Action::Lerp(lerp) => Action::Lerp(lerp.spec_on_stop(reason)),
        }
    }

    /// The action after a tick of `dt` nanoseconds.
    pub open spec fn spec_tick(self, world: Map<u64, Transform>, dt: u64) -> Action {
        match self {
            Action::Wait(wait) => Action::Wait(wait.spec_tick(dt)),
            Action::Move(moving) => Action::Move(moving),
            Action::Lerp(lerp) => Action::Lerp(lerp.spec_tick(world, dt)),
        }
    }

    /// The world after a tick of `dt` nanoseconds of the action of `agent`.
    pub open spec fn spec_tick_world(self, agent: u64, world: Map<u64, Transform>, dt: u64) -> Map<
        u64,
        Transform,
    > {
        match self {
            Action::Wait(_) => world,
            Action::Move(moving) => moving.spec_tick_world(agent, world, dt),
            Action::Lerp(lerp) => lerp.spec_tick_world(world, dt),
        }
    }

    /// Whether the action judges itself complete after a tick of `dt`
    /// nanoseconds, or why it could not run.
    pub open spec fn spec_tick_result(self, agent: u64, world: Map<u64, Transform>, dt: u64)
        -> Result<bool, ActionError> {
        match self {
            Action::Wait(wait) => Ok(wait.spec_tick(dt).spec_is_finished()),
            Action::Move(moving) => moving.spec_tick_result(agent, world, dt),
            Action::Lerp(lerp) => lerp.spec_tick_result(world, dt),
        }
    }

    /// The blend of rotations that a tick of `dt` nanoseconds leaves to the caller.
    pub open spec fn spec_tick_rotation(self, world: Map<u64, Transform>, dt: u64) -> Option<
        RotationBlend,
    > {
        match self {
            Action::Lerp(lerp) => lerp.spec_tick_rotation(world, dt),
            _ => None,
        }
    }

    /// Starts or resumes the action for `agent`.
    pub fn on_start(&mut self, agent: u64, world: &World)
        ensures
            *final(self) == old(self).spec_on_start(agent, world@),
    {
        match self {
            Action::Wait(wait) => wait.on_start(),
            Action::Move(moving) => moving.on_start(agent, world),
            Action::Lerp(lerp) => lerp.on_start(world),
        }
    }

    /// Stops the action.
    pub fn on_stop(&mut self, reason: StopReason)
        ensures
            *final(self) == old(self).spec_on_stop(reason),
    {
        match self {
            Action::Wait(wait) => wait.on_stop(reason),
            Action::Move(moving) => moving.on_stop(reason),
            Action::Lerp(lerp) => lerp.on_stop(reason),
        }
    }

    /// Runs the action of `agent` for one tick, and says whether it judges
    /// itself complete and which blend of rotations is left to the caller.
    pub fn tick(&mut self, agent: u64, world: &mut World, tick: &PhysicsTick) -> (r: (
        Result<bool, ActionError>,
        Option<RotationBlend>,
    ))
        ensures
            *final(self) == old(self).spec_tick(old(world)@, tick@.delta as u64),
            final(world)@ == old(self).spec_tick_world(agent, old(world)@, tick@.delta as u64),
            r.0 == old(self).spec_tick_result(agent, old(world)@, tick@.delta as u64),
            r.1 == old(self).spec_tick_rotation(old(world)@, tick@.delta as u64),
    {
        match self {
            Action::Wait(wait) => (Ok(wait.tick(tick.delta())), None),
            Action::Move(moving) => (moving.tick(agent, world, tick), None),
            Action::Lerp(lerp) => lerp.tick(world, tick),
        }
    }
}

} // verus!
