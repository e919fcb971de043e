//! One tick of the whole simulation, in its strict order.

use vstd::prelude::*;
use crate::actions::{ActionError, ActionQueue};
use crate::interpolation::{Lerp, RotationBlend};
use crate::math::Quat;
use crate::physics::PhysicsError;
use crate::player::{GroundState, PlayerBundle, TickInput};
use crate::tick::PhysicsTick;
use crate::world::{Transform, World};

verus! {

/// What one tick of the simulation has done.
#[derive(Clone, Copy, Debug, PartialEq, Eq)]
pub struct TickReport {
    /// Whether the ground beneath the agent changed.
    pub ground_changed: bool,
    /// Whether the agent ran its tick to the end.
    pub physics: Result<(), PhysicsError>,
    /// Whether the action queue advanced, or why its action could not run.
    pub action: Result<bool, ActionError>,
    /// The blend of rotations that is left to the caller.
    pub rotation: Option<RotationBlend>,
}

/// Runs one tick of the simulation, in this order: the ground beneath the
/// agent, the tuning that it sets, the integration step, the tick of the
/// action queue, and last the snapshot for rendering of where the agent
/// is, turned by `rotation`, which a clock that drains a backlog leaves
/// out.
pub fn run_tick(
    player: &mut PlayerBundle,
    queue: &mut ActionQueue,
    world: &mut World,
    buffer: &mut Lerp<Transform>,
    given: &TickInput,
    rotation: Quat,
    tick: &PhysicsTick,
) -> (r: TickReport)
    requires
        old(queue).wf(),
    ensures
        final(player)@ == old(player)@.tick(*given, tick@.delta as int),
        final(queue).wf(),
        final(queue)@ == old(queue)@.tick(old(world)@, tick@.delta as u64),
        final(world)@ == old(queue)@.tick_world(old(world)@, tick@.delta as u64),
        *final(buffer) == old(buffer).spec_update(
            Transform { translation: final(player)@.physics_bundle.position, rotation },
            tick@.looping,
        ),
        r.ground_changed == (old(player)@.ground_state != GroundState::spec_from_probe(
            given.probe,
        )),
        r.physics.is_ok() <==> old(player)@.can_tick(*given, tick@.delta as int),
        r.action == old(queue)@.tick_result(old(world)@, tick@.delta as u64),
        r.rotation == old(queue)@.tick_rotation(old(world)@, tick@.delta as u64),
{
    let (ground_changed, physics) = player.tick(given, tick);
    let (action, blend) = queue.tick(world, tick);
    buffer.update(Transform { translation: player.physics_bundle().position, rotation }, tick);
    TickReport { ground_changed, physics, action, rotation: blend }
}

} // verus!
