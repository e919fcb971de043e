//! Blending a value of an entity from where it is to an end, over a duration.

use vstd::prelude::*;
use crate::actions::{ActionError, StopReason};
use crate::interpolation::{lerp3, spec_lerp3, RotationBlend};
use crate::math::{Fraction, Quat, Vec3};
use crate::tick::PhysicsTick;
use crate::world::{Transform, World};

verus! {

/// The value that is blended, and its end.
#[derive(Clone, Copy, Debug, PartialEq, Eq, Structural)]
pub enum LerpType {
    /// The position, blended to this point.
    Position(Vec3),
    /// The rotation, blended to this rotation.
    Rotation(Quat),
}

/// Whose value to blend, to what end, and for how long.
#[derive(Clone, Copy, Debug, PartialEq, Eq, Structural)]
pub struct LerpConfig {
    /// The entity whose value is blended.
    pub target: u64,
    /// The value and its end.
    pub lerp_type: LerpType,
    /// The duration, in nanoseconds.
    pub duration: u64,
}

/// How far a blend that runs or is paused has come.
#[derive(Clone, Copy, Debug, PartialEq, Eq, Structural)]
pub struct LerpProgress {
    /// The transform of the target when the blend began, if the target existed.
    pub start: Option<Transform>,
    /// The time blended so far, in nanoseconds, and at most the duration.
    pub elapsed: u64,
}

/// Blends a value of an entity.
#[derive(Clone, Copy, Debug, PartialEq, Eq, Structural)]
pub struct LerpAction {
    /// What was asked for.
    pub config: LerpConfig,
    /// The blend that runs or is paused.
    pub progress: Option<LerpProgress>,
}

/// The time blended after `dt` more nanoseconds: at most the duration.
pub open spec fn elapsed_after(elapsed: u64, duration: u64, dt: u64) -> u64 {
    if elapsed >= duration || duration - elapsed <= dt {
        duration
    } else {
        (elapsed + dt) as u64
    }
}

/// How far a blend has come: the share of the duration that has elapsed,
/// and all of it for a blend without duration.
pub open spec fn blend_alpha(elapsed: u64, duration: u64) -> Fraction {
    if duration == 0 {
        Fraction { part: 1, whole: 1 }
    } else {
        Fraction { part: elapsed, whole: duration }
    }
}

impl LerpAction {
    /// A blend that has not begun.
    pub fn new(config: LerpConfig) -> (r: Self)
        ensures
            r == (LerpAction { config, progress: None }),
    {
        LerpAction { config, progress: None }
    }

    /// The action once it is started: a paused blend goes on, any other
    /// begins at what the target is now.
    pub open spec fn spec_on_start(self, world: Map<u64, Transform>) -> LerpAction {
        LerpAction {
            config: self.config,
            progress: Some(
                match self.progress {
                    Some(progress) => progress,
                    None => LerpProgress {
                        start: if world.contains_key(self.config.target) {
                            Some(world[self.config.target])
                        } else {
                            None
                        },
                        elapsed: 0,
                    },
                },
            ),
        }
    }

    /// The action once it is stopped: only a pause keeps the blend.
    pub open spec fn spec_on_stop(self, reason: StopReason) -> LerpAction {
        LerpAction {
            config: self.config,
            progress: match reason {
                StopReason::Paused => self.progress,
                _ => None,
            },
        }
    }

    /// Starts or resumes the blend.
    pub fn on_start(&mut self, world: &World)
        ensures
            *final(self) == old(self).spec_on_start(world@),
    {
        if self.progress.is_none() {
            self.progress = Some(LerpProgress { start: world.get(self.config.target), elapsed: 0 });
        }
    }

    /// Stops the blend.
    pub fn on_stop(&mut self, reason: StopReason)
        ensures
            *final(self) == old(self).spec_on_stop(reason),
    {
        match reason {
            StopReason::Paused => {},
            _ => {
                self.progress = None;
            },
        }
    }

    /// Whether a tick can blend: the blend runs, and its target existed
    /// when it began and exists now.
    pub open spec fn can_tick(self, world: Map<u64, Transform>) -> bool {
        &&& self.progress matches Some(progress)
        &&& progress.start.is_some()
        &&& world.contains_key(self.config.target)
    }

    /// The action after a tick of `dt` nanoseconds.
    pub open spec fn spec_tick(self, world: Map<u64, Transform>, dt: u64) -> LerpAction {
        if self.can_tick(world) {
            LerpAction {
                config: self.config,
                progress: Some(
                    LerpProgress {
                        start: self.progress.unwrap().start,
                        elapsed: elapsed_after(
                            self.progress.unwrap().elapsed,
                            self.config.duration,
                            dt,
                        ),
                    },
                ),
            }
        } else {
            self
        }
    }

    /// How far the blend has come after a tick of `dt` nanoseconds.
    pub open spec fn alpha_after(self, dt: u64) -> Fraction {
        blend_alpha(
            elapsed_after(self.progress.unwrap().elapsed, self.config.duration, dt),
            self.config.duration,
        )
    }

    /// The world after a tick of `dt` nanoseconds: a blended position is
    /// written to the target, and nothing else changes.
    pub open spec fn spec_tick_world(self, world: Map<u64, Transform>, dt: u64) -> Map<
        u64,
        Transform,
    > {
        if self.can_tick(world) {
            match self.config.lerp_type {
                LerpType::Position(end) => world.insert(
                    self.config.target,
                    Transform {
                        translation: spec_lerp3(
                            self.progress.unwrap().start.unwrap().translation,
                            end,
                            self.alpha_after(dt),
                        ),
                        rotation: world[self.config.target].rotation,
                    },
                ),
                LerpType::Rotation(_) => world,
            }
        } else {
            world
        }
    }

    /// The blend of rotations that a tick of `dt` nanoseconds leaves to the caller.
    pub open spec fn spec_tick_rotation(self, world: Map<u64, Transform>, dt: u64) -> Option<
        RotationBlend,
    > {
        if self.can_tick(world) {
            match self.config.lerp_type {
                LerpType::Position(_) => None,
                LerpType::Rotation(end) => Some(
                    RotationBlend {
                        target: self.config.target,
                        from: self.progress.unwrap().start.unwrap().rotation,
                        to: end,
                        alpha: self.alpha_after(dt),
                    },
                ),
            }
        } else {
            None
        }
    }

    /// What a tick of `dt` nanoseconds gives: whether the duration has
    /// elapsed, or that the target is missing. A blend that does not run
    /// blends nothing.
    pub open spec fn spec_tick_result(self, world: Map<u64, Transform>, dt: u64) -> Result<
        bool,
        ActionError,
    > {
        match self.progress {
            None => Ok(false),
            Some(progress) => if self.can_tick(world) {
                Ok(elapsed_after(progress.elapsed, self.config.duration, dt) >= self.config.duration)
            } else {
                Err(ActionError::MissingTarget)
            },
        }
    }

    /// Blends for one tick, and says whether the duration has elapsed and
    /// which blend of rotations is left to the caller.
    pub fn tick(&mut self, world: &mut World, tick: &PhysicsTick) -> (r: (
        Result<bool, ActionError>,
        Option<RotationBlend>,
    ))
        ensures
            *final(self) == old(self).spec_tick(old(world)@, tick@.delta as u64),
            final(world)@ == old(self).spec_tick_world(old(world)@, tick@.delta as u64),
            r.0 == old(self).spec_tick_result(old(world)@, tick@.delta as u64),
            r.1 == old(self).spec_tick_rotation(old(world)@, tick@.delta as u64),
    {
        let progress = match self.progress {
            Some(progress) => progress,
            None => {
                return (Ok(false), None);
            },
        };
        let start = match progress.start {
            Some(start) => start,
            None => {
                return (Err(ActionError::MissingTarget), None);
            },
        };
        let now = match world.get(self.config.target) {
            Some(now) => now,
            None => {
                return (Err(ActionError::MissingTarget), None);
            },
        };
        let dt: u64 = tick.delta();
        let duration: u64 = self.config.duration;
        let elapsed: u64 = if progress.elapsed >= duration || duration - progress.elapsed <= dt {
            duration
        } else {
            progress.elapsed + dt
        };
        let alpha = if duration == 0 {
            Fraction { part: 1, whole: 1 }
        } else {
            Fraction { part: elapsed, whole: duration }
        };
        self.progress = Some(LerpProgress { start: Some(start), elapsed });
        match self.config.lerp_type {
            LerpType::Position(end) => {
                world.insert(
                    self.config.target,
                    Transform {
                        translation: lerp3(start.translation, end, alpha),
                        rotation: now.rotation,
                    },
                );
                (Ok(elapsed >= duration), None)
            },
            LerpType::Rotation(end) => (
                Ok(elapsed >= duration),
                Some(RotationBlend { target: self.config.target, from: start.rotation, to: end, alpha }),
            ),
        }
    }
}

/// A blend that is paused and resumed goes on from where it was, with the
/// start it had.
pub proof fn lemma_pause_resume_keeps_blend(action: LerpAction, world: Map<u64, Transform>)
    requires
        action.progress.is_some(),
    ensures
        action.spec_on_stop(StopReason::Paused).spec_on_start(world) == action,
{
}

} // verus!
