//! The integrator: one velocity and position step per simulation tick.

use vstd::prelude::*;
use crate::math::{
    fits, lemma_scaled_by_one, narrow, over_time, scale, scaled, times_nanos, Vec3, UNIT,
};
use crate::movement::{move_towards, spec_move_towards};
use crate::tick::PhysicsTick;

verus! {

/// The pull of gravity, in fixed-point units per second squared.
pub const BASE_GRAVITY: u32 = 9_810_000;

/// The velocity record of an agent.
#[derive(Clone, Copy, Debug, PartialEq, Eq, Structural)]
pub struct Velocity {
    /// The steering velocity that gameplay asks for.
    pub target: Vec3,
    /// The settled velocity carried from tick to tick.
    pub current: Vec3,
    /// One-shot impulses, consumed by the next step.
    pub added: Vec3,
}

/// The multipliers that the ground beneath the agent sets, in fixed point.
#[derive(Clone, Copy, Debug, PartialEq, Eq, Structural)]
pub struct Scalars {
    /// How much of the steering input becomes steering velocity.
    pub speed: u32,
    /// How much of the steering velocity is added to the velocity each tick.
    pub acceleration: u32,
    /// The share of the horizontal velocity that is lost each tick.
    pub damping: u32,
    /// How strongly gravity pulls.
    pub gravity: u32,
    /// How high a jump reaches.
    pub jump_height: u32,
}

/// Why a step was refused.
#[derive(Clone, Copy, Debug, PartialEq, Eq, Structural)]
pub enum PhysicsError {
    /// A result does not fit in a coordinate.
    Overflow,
}

/// A vector of exact integers, before it is stored.
pub struct Wide3 {
    pub x: int,
    pub y: int,
    pub z: int,
}

impl Wide3 {
    /// Whether every coordinate can be stored.
    pub open spec fn fits(self) -> bool {
        fits(self.x) && fits(self.y) && fits(self.z)
    }

    /// The stored vector.
    pub open spec fn narrow(self) -> Vec3 {
        Vec3 { x: self.x as i64, y: self.y as i64, z: self.z as i64 }
    }
}

/// A horizontal coordinate of the velocity once impulse, steering push and
/// damping are applied, in this order.
pub open spec fn steered(current: int, added: int, target: int, scalars: Scalars) -> int {
    scaled(
        current + added + scaled(target, scalars.acceleration as int),
        UNIT - scalars.damping,
    )
}

/// The loss of vertical speed to gravity over `dt` nanoseconds.
pub open spec fn gravity_loss(scalars: Scalars, gravity_base: int, dt: int) -> int {
    over_time(scaled(gravity_base, scalars.gravity as int), dt)
}

/// The velocity that moves the agent in this step: impulses folded in, the
/// horizontal part steered and damped.
pub open spec fn moving_velocity(velocity: Velocity, scalars: Scalars) -> Wide3 {
    Wide3 {
        x: steered(
            velocity.current.x as int,
            velocity.added.x as int,
            velocity.target.x as int,
            scalars,
        ),
        y: velocity.current.y + velocity.added.y,
        z: steered(
            velocity.current.z as int,
            velocity.added.z as int,
            velocity.target.z as int,
            scalars,
        ),
    }
}

/// The position after moving for `dt` nanoseconds, before the floor is applied.
pub open spec fn moved_position(position: Vec3, moving: Wide3, dt: int) -> Wide3 {
    Wide3 {
        x: position.x + over_time(moving.x, dt),
        y: position.y + over_time(moving.y, dt),
        z: position.z + over_time(moving.z, dt),
    }
}

/// The position after one step: below the floor it is put back on it.
pub open spec fn next_position(
    velocity: Velocity,
    position: Vec3,
    scalars: Scalars,
    dt: int,
) -> Wide3 {
    let moved = moved_position(position, moving_velocity(velocity, scalars), dt);
    Wide3 { x: moved.x, y: if moved.y < 0 { 0 } else { moved.y }, z: moved.z }
}

/// The settled velocity after one step: gravity taken off the vertical part,
/// which the floor sets to zero.
pub open spec fn next_velocity(
    velocity: Velocity,
    position: Vec3,
    scalars: Scalars,
    gravity_base: int,
    dt: int,
) -> Wide3 {
    let moving = moving_velocity(velocity, scalars);
    let moved = moved_position(position, moving, dt);
    Wide3 {
        x: moving.x,
        y: if moved.y < 0 { 0 } else { moving.y - gravity_loss(scalars, gravity_base, dt) },
        z: moving.z,
    }
}

/// The height that the agent moves to in one step, before the floor is
/// applied: its height, and what its vertical speed with the impulses
/// folded in covers in `dt` nanoseconds.
pub open spec fn moved_height(motion: PhysicsBundle, dt: int) -> int {
    motion.position.y + over_time(motion.velocity.current.y + motion.velocity.added.y, dt)
}

/// The vertical speed after one step above the floor: the speed with the
/// impulses folded in, less what gravity takes in `dt` nanoseconds.
pub open spec fn fallen_speed(motion: PhysicsBundle, scalars: Scalars, gravity_base: int, dt: int)
    -> int {
    motion.velocity.current.y + motion.velocity.added.y - gravity_loss(scalars, gravity_base, dt)
}

/// Whether the velocity and the position after one step can be stored.
pub open spec fn can_step(motion: PhysicsBundle, scalars: Scalars, gravity_base: int, dt: int)
    -> bool {
    &&& next_velocity(motion.velocity, motion.position, scalars, gravity_base, dt).fits()
    &&& next_position(motion.velocity, motion.position, scalars, dt).fits()
}

/// The velocity record and the position after one step: the steering
/// velocity stays, and the impulses are consumed.
pub open spec fn stepped(motion: PhysicsBundle, scalars: Scalars, gravity_base: int, dt: int)
    -> PhysicsBundle {
    PhysicsBundle {
        velocity: Velocity {
            target: motion.velocity.target,
            current: next_velocity(
                motion.velocity,
                motion.position,
                scalars,
                gravity_base,
                dt,
            ).narrow(),
            added: Vec3::zero(),
        },
        position: next_position(motion.velocity, motion.position, scalars, dt).narrow(),
    }
}

/// The velocity record and the position of an agent.
#[derive(Clone, Copy, Debug, PartialEq, Eq, Structural)]
pub struct PhysicsBundle {
    pub velocity: Velocity,
    pub position: Vec3,
}

impl Default for PhysicsBundle {
    /// An agent at rest at the origin.
    fn default() -> (r: Self)
        ensures
            r == (PhysicsBundle {
                velocity: Velocity {
                    target: Vec3::zero(),
                    current: Vec3::zero(),
                    added: Vec3::zero(),
                },
                position: Vec3::zero(),
            }),
    {
        PhysicsBundle { velocity: Velocity::new(), position: Vec3::zero() }
    }
}

/// Without damping and at an acceleration of one, each step adds the
/// steering velocity to the horizontal part of the velocity.
pub proof fn lemma_undamped_step_adds_target(velocity: Velocity, scalars: Scalars)
    requires
        scalars.damping == 0,
        scalars.acceleration == UNIT,
    ensures
        moving_velocity(velocity, scalars).x == velocity.current.x + velocity.added.x
            + velocity.target.x,
        moving_velocity(velocity, scalars).z == velocity.current.z + velocity.added.z
            + velocity.target.z,
{
    lemma_scaled_by_one(velocity.target.x as int);
    lemma_scaled_by_one(velocity.target.z as int);
    lemma_scaled_by_one(velocity.current.x + velocity.added.x + velocity.target.x);
    lemma_scaled_by_one(velocity.current.z + velocity.added.z + velocity.target.z);
}

/// A step never leaves the agent below the floor, and a step that would
/// have taken it below leaves it on the floor with no vertical speed.
pub proof fn lemma_floor_clamp(
    velocity: Velocity,
    position: Vec3,
    scalars: Scalars,
    gravity_base: int,
    dt: int,
)
    ensures
        next_position(velocity, position, scalars, dt).y >= 0,
        moved_position(position, moving_velocity(velocity, scalars), dt).y < 0 ==> {
            &&& next_position(velocity, position, scalars, dt).y == 0
            &&& next_velocity(velocity, position, scalars, gravity_base, dt).y == 0
        },
{
}

/// Of every step that can be stored: the agent is not below the floor
/// after it. Where it would have moved below the floor, it is on the floor
/// with no vertical speed; where not, it is at the height that it moved to,
/// and gravity has been taken off its vertical speed.
pub proof fn lemma_stored_step_keeps_floor(
    motion: PhysicsBundle,
    scalars: Scalars,
    gravity_base: int,
    dt: int,
)
    requires
        can_step(motion, scalars, gravity_base, dt),
    ensures
        stepped(motion, scalars, gravity_base, dt).position.y >= 0,
        moved_height(motion, dt) < 0 ==> {
            &&& stepped(motion, scalars, gravity_base, dt).position.y == 0
            &&& stepped(motion, scalars, gravity_base, dt).velocity.current.y == 0
        },
        moved_height(motion, dt) >= 0 ==> {
            &&& stepped(motion, scalars, gravity_base, dt).position.y == moved_height(motion, dt)
            &&& stepped(motion, scalars, gravity_base, dt).velocity.current.y == fallen_speed(
                motion,
                scalars,
                gravity_base,
                dt,
            )
        },
        stepped(motion, scalars, gravity_base, dt).velocity.added == Vec3::zero(),
{
}

impl Velocity {
    /// A record at rest.
    pub fn new() -> (r: Self)
        ensures
            r == (Velocity { target: Vec3::zero(), current: Vec3::zero(), added: Vec3::zero() }),
    {
        Velocity { target: Vec3::zero(), current: Vec3::zero(), added: Vec3::zero() }
    }

    /// The settled velocity with its horizontal part moved toward `target`
    /// by at most `acceleration`, and its vertical part kept. `None` where
    /// the way to the target does not fit in a vector.
    pub open spec fn spec_move_towards(self, target: Vec3, acceleration: u64) -> Option<Vec3> {
        match spec_move_towards(
            Vec3 { x: self.current.x, y: 0, z: self.current.z },
            target,
            acceleration,
        ) {
            Some(moved) => Some(Vec3 { x: moved.x, y: self.current.y, z: moved.z }),
            None => None,
        }
    }

    /// Moves the horizontal part of the settled velocity toward `target`
    /// by at most `acceleration`, and keeps its vertical part.
    ///
    /// It is refused, and nothing changes, where the way to the target
    /// does not fit in a vector.
    pub fn move_towards(&mut self, target: Vec3, acceleration: u64) -> (r: Result<
        (),
        PhysicsError,
    >)
        ensures
            r.is_ok() <==> old(self).spec_move_towards(target, acceleration).is_some(),
            r.is_ok() ==> *final(self) == (Velocity {
                current: old(self).spec_move_towards(target, acceleration).unwrap(),
                ..*old(self)
            }),
            r.is_err() ==> *final(self) == *old(self),
    {
        let flat = Vec3 { x: self.current.x, y: 0, z: self.current.z };
        match move_towards(flat, target, acceleration) {
            Some(moved) => {
                self.current = Vec3 { x: moved.x, y: self.current.y, z: moved.z };
                Ok(())
            },
            None => Err(PhysicsError::Overflow),
        }
    }

    /// Whether the impulse `v` can be stored on top of those waiting.
    pub open spec fn can_add(self, v: Vec3) -> bool {
        fits(self.added.x + v.x) && fits(self.added.y + v.y) && fits(self.added.z + v.z)
    }

    /// Adds the one-shot impulse `v` to those waiting for the next step.
    pub fn add(&mut self, v: Vec3) -> (r: Result<(), PhysicsError>)
        ensures
            r.is_ok() <==> old(self).can_add(v),
            r.is_ok() ==> *final(self) == (Velocity {
                added: Vec3 {
                    x: (old(self).added.x + v.x) as i64,
                    y: (old(self).added.y + v.y) as i64,
                    z: (old(self).added.z + v.z) as i64,
                },
                ..*old(self)
            }),
            r.is_err() ==> *final(self) == *old(self),
    {
        let x = narrow(self.added.x as i128 + v.x as i128);
        let y = narrow(self.added.y as i128 + v.y as i128);
        let z = narrow(self.added.z as i128 + v.z as i128);
        match (x, y, z) {
            (Some(x), Some(y), Some(z)) => {
                self.added = Vec3 { x, y, z };
                Ok(())
            },
            _ => Err(PhysicsError::Overflow),
        }
    }
}

/// Runs one integration step of `tick.delta()` nanoseconds.
///
/// The step is refused, and nothing changes, where a new coordinate of the
/// velocity or of the position cannot be stored. After a step that is
/// taken the agent is not below the floor: where it would have moved below
/// it, it is on the floor with no vertical speed.
pub fn apply_velocity(
    velocity: &mut Velocity,
    position: &mut Vec3,
    scalars: &Scalars,
    gravity_base: u32,
    tick: &PhysicsTick,
) -> (r: Result<(), PhysicsError>)
    ensures
        ({
            let before = PhysicsBundle { velocity: *old(velocity), position: *old(position) };
            let dt = tick@.delta as int;
            let after = if can_step(before, *scalars, gravity_base as int, dt) {
                stepped(before, *scalars, gravity_base as int, dt)
            } else {
                before
            };
            &&& r.is_ok() <==> can_step(before, *scalars, gravity_base as int, dt)
            &&& *final(velocity) == after.velocity
            &&& *final(position) == after.position
            &&& r.is_ok() || old(position).y >= 0 ==> final(position).y >= 0
            &&& r.is_ok() ==> final(velocity).added == Vec3::zero()
            &&& r.is_ok() && moved_height(before, dt) < 0 ==> {
                &&& final(position).y == 0
                &&& final(velocity).current.y == 0
            }
            &&& r.is_ok() && moved_height(before, dt) >= 0 ==> {
                &&& final(position).y == moved_height(before, dt)
                &&& final(velocity).current.y == fallen_speed(
                    before,
                    *scalars,
                    gravity_base as int,
                    dt,
                )
            }
        }),
{
    let dt: u64 = tick.delta();
    let acceleration: i128 = scalars.acceleration as i128;
    let keep: i128 = UNIT as i128 - scalars.damping as i128;

    let push_x: i128 = scale(velocity.target.x as i128, acceleration);
    let push_z: i128 = scale(velocity.target.z as i128, acceleration);
    let vx: i128 = scale(velocity.current.x as i128 + velocity.added.x as i128 + push_x, keep);
    let vy: i128 = velocity.current.y as i128 + velocity.added.y as i128;
    let vz: i128 = scale(velocity.current.z as i128 + velocity.added.z as i128 + push_z, keep);

    let px: i128 = position.x as i128 + times_nanos(vx, dt);
    let py: i128 = position.y as i128 + times_nanos(vy, dt);
    let pz: i128 = position.z as i128 + times_nanos(vz, dt);

    let pull: i128 = times_nanos(scale(gravity_base as i128, scalars.gravity as i128), dt);
    let grounded: bool = py < 0;
    let fallen: i128 = if grounded { 0 } else { vy - pull };
    let floored: i128 = if grounded { 0 } else { py };

    match (narrow(vx), narrow(fallen), narrow(vz), narrow(px), narrow(floored), narrow(pz)) {
        (Some(vx), Some(vy), Some(vz), Some(px), Some(py), Some(pz)) => {
            velocity.current = Vec3 { x: vx, y: vy, z: vz };
            velocity.added = Vec3::zero();
            *position = Vec3 { x: px, y: py, z: pz };
            Ok(())
        },
        _ => Err(PhysicsError::Overflow),
    }
}

} // verus!
