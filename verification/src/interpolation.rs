//! The interpolation buffer: the last two authoritative states of a tracked
//! entity, and the blend of them that is shown between ticks.

use vstd::prelude::*;
use crate::math::{trunc_div, Fraction, Quat, Vec3};
use crate::tick::PhysicsTick;
use crate::world::Transform;

verus! {

/// What a rendered entity follows, and which parts of it are blended.
#[derive(Clone, Copy, Debug, PartialEq, Eq, Structural)]
pub struct PhysicsInterpolation {
    /// The simulated entity to follow.
    pub target: u64,
    /// Whether the position is blended.
    pub translate: bool,
    /// Whether the rotation is blended.
    pub rotate: bool,
}

impl PhysicsInterpolation {
    /// Follows the position of `target`.
    pub fn new(target: u64) -> (r: Self)
        ensures
            r == (PhysicsInterpolation { target, translate: true, rotate: false }),
    {
        PhysicsInterpolation { target, translate: true, rotate: false }
    }
}

/// A blend of two rotations that is left to the caller to compute: the
/// rotation that lies `alpha` of the way from `from` to `to` on the sphere.
#[derive(Clone, Copy, Debug, PartialEq, Eq, Structural)]
pub struct RotationBlend {
    /// The entity to turn.
    pub target: u64,
    /// The rotation at which the blend begins.
    pub from: Quat,
    /// The rotation at which it ends.
    pub to: Quat,
    /// How far the blend has come.
    pub alpha: Fraction,
}

/// The state of the tick before last and the state of the last tick.
pub struct Lerp<T> {
    pub previous: T,
    pub current: T,
}

impl<T> Lerp<T> {
    /// The buffer after the authoritative state of a tick is handed to it:
    /// taken in, unless the clock drains a backlog.
    pub open spec fn spec_update(self, authoritative: T, looping: bool) -> Lerp<T> {
        if looping {
            self
        } else {
            Lerp { previous: self.current, current: authoritative }
        }
    }

    /// The buffer after the ticks of one frame, whose authoritative states
    /// are `states` in order: the clock drains a backlog after each tick
    /// but the last.
    pub open spec fn spec_update_frame(self, states: Seq<T>) -> Lerp<T>
        decreases states.len(),
    {
        if states.len() == 0 {
            self
        } else {
            self.spec_update(states[0], states.len() > 1).spec_update_frame(states.skip(1))
        }
    }

    /// After the ticks of one frame the buffer holds the state before the
    /// first of them and the state after the last: the states between are
    /// not taken in.
    pub proof fn lemma_frame_keeps_first_and_last(self, states: Seq<T>)
        requires
            states.len() > 0,
        ensures
            self.spec_update_frame(states) == (Lerp {
                previous: self.current,
                current: states.last(),
            }),
        decreases states.len(),
    {
        if states.len() > 1 {
            let rest = states.skip(1);
            assert(rest.last() == states.last());
            self.lemma_frame_keeps_first_and_last(rest);
        } else {
            let rest = states.skip(1);
            assert(rest.len() == 0);
            assert(self.spec_update(states[0], false).spec_update_frame(rest) == self.spec_update(
                states[0],
                false,
            ));
        }
    }
}

impl<T: Copy> Lerp<T> {
    /// A buffer that holds `state` twice.
    pub fn new(state: T) -> (r: Self)
        ensures
            r.previous == state,
            r.current == state,
    {
        Lerp { previous: state, current: state }
    }

    /// Takes in the authoritative state after a tick.
    ///
    /// While the clock drains a backlog nothing is taken in, so that after
    /// the last tick of a frame `previous` is the state before the frame's
    /// first tick and `current` the state after its last.
    pub fn update(&mut self, authoritative: T, tick: &PhysicsTick)
        ensures
            *final(self) == old(self).spec_update(authoritative, tick@.looping),
    {
        if tick.is_looping() {
            return;
        }
        self.previous = self.current;
        self.current = authoritative;
    }
}

/// The blend of two coordinates: `alpha` of the way from `previous` to `current`.
pub open spec fn spec_lerp(previous: int, current: int, alpha: Fraction) -> int {
    previous + trunc_div((current - previous) * alpha.part, alpha.whole as int)
}

/// The blend of two vectors, coordinate by coordinate.
pub open spec fn spec_lerp3(previous: Vec3, current: Vec3, alpha: Fraction) -> Vec3 {
    Vec3 {
        x: spec_lerp(previous.x as int, current.x as int, alpha) as i64,
        y: spec_lerp(previous.y as int, current.y as int, alpha) as i64,
        z: spec_lerp(previous.z as int, current.z as int, alpha) as i64,
    }
}

/// A blend lies between its two ends; at nothing it is the first and at
/// the whole it is the second.
pub proof fn lemma_lerp_between(previous: int, current: int, alpha: Fraction)
    requires
        alpha.wf(),
    ensures
        previous <= current ==> previous <= spec_lerp(previous, current, alpha) <= current,
        current <= previous ==> current <= spec_lerp(previous, current, alpha) <= previous,
        alpha.part == 0 ==> spec_lerp(previous, current, alpha) == previous,
        alpha.part == alpha.whole ==> spec_lerp(previous, current, alpha) == current,
{
    let span = if current >= previous { current - previous } else { previous - current };
    let part = alpha.part as int;
    let whole = alpha.whole as int;
    assert(0 <= (span * part) / whole <= span) by (nonlinear_arith)
        requires
            0 <= part <= whole,
            whole > 0,
            span >= 0,
    ;
    assert(part == 0 ==> (span * part) / whole == 0) by (nonlinear_arith)
        requires
            whole > 0,
    ;
    assert(part == whole ==> (span * part) / whole == span) by (nonlinear_arith)
        requires
            whole > 0,
            span >= 0,
    ;
    assert((current - previous) * part == -((previous - current) * part)) by (nonlinear_arith);
    assert(current >= previous ==> (current - previous) * part >= 0) by (nonlinear_arith)
        requires
            part >= 0,
    ;
    assert(current < previous ==> (current - previous) * part <= 0) by (nonlinear_arith)
        requires
            part >= 0,
    ;
}

/// The blend of two coordinates: `alpha` of the way from `previous` to `current`.
pub fn lerp(previous: i64, current: i64, alpha: Fraction) -> (r: i64)
    requires
        alpha.wf(),
    ensures
        r == spec_lerp(previous as int, current as int, alpha),
{
    proof {
        lemma_lerp_between(previous as int, current as int, alpha);
    }
    let rising: bool = current >= previous;
    let span: u128 = if rising {
        (current as i128 - previous as i128) as u128
    } else {
        (previous as i128 - current as i128) as u128
    };
    assert(0 <= span * alpha.part <= 0xffff_ffff_ffff_ffff * 0xffff_ffff_ffff_ffff)
        by (nonlinear_arith)
        requires
            0 <= span <= 0xffff_ffff_ffff_ffff,
            0 <= alpha.part <= 0xffff_ffff_ffff_ffff,
    ;
    let step: u128 = (span * (alpha.part as u128)) / (alpha.whole as u128);
    assert((current - previous) * alpha.part == -((previous - current) * alpha.part))
        by (nonlinear_arith);
    assert(rising ==> (current - previous) * alpha.part >= 0) by (nonlinear_arith)
        requires
            rising ==> current - previous >= 0,
            alpha.part >= 0,
    ;
    assert(!rising ==> (current - previous) * alpha.part <= 0) by (nonlinear_arith)
        requires
            !rising ==> current - previous < 0,
            alpha.part >= 0,
    ;
    if rising {
        (previous as i128 + step as i128) as i64
    } else {
        (previous as i128 - step as i128) as i64
    }
}

/// The blend of two vectors, coordinate by coordinate.
pub fn lerp3(previous: Vec3, current: Vec3, alpha: Fraction) -> (r: Vec3)
    requires
        alpha.wf(),
    ensures
        r == spec_lerp3(previous, current, alpha),
{
    Vec3 {
        x: lerp(previous.x, current.x, alpha),
        y: lerp(previous.y, current.y, alpha),
        z: lerp(previous.z, current.z, alpha),
    }
}

/// Blends the transform of the rendered entity `entity` between the last
/// two ticks, as far as the clock has come since the last.
///
/// The position is written if it is blended. The rotation is left as it
/// is: if it is blended, the blend is handed to the caller.
pub fn interpolate(
    entity: u64,
    transform: &mut Transform,
    interpolation: &PhysicsInterpolation,
    lerp: &Lerp<Transform>,
    tick: &PhysicsTick,
) -> (r: Option<RotationBlend>)
    requires
        !tick@.looping,
    ensures
        final(transform).translation == (if interpolation.translate {
            spec_lerp3(lerp.previous.translation, lerp.current.translation, tick@.percent())
        } else {
            old(transform).translation
        }),
        final(transform).rotation == old(transform).rotation,
        r == (if interpolation.rotate {
            Some(
                RotationBlend {
                    target: entity,
                    from: lerp.previous.rotation,
                    to: lerp.current.rotation,
                    alpha: tick@.percent(),
                },
            )
        } else {
            None
        }),
{
    let alpha = tick.percent();
    if interpolation.translate {
        transform.translation = lerp3(lerp.previous.translation, lerp.current.translation, alpha);
    }
    if interpolation.rotate {
        Some(
            RotationBlend {
                target: entity,
                from: lerp.previous.rotation,
                to: lerp.current.rotation,
                alpha,
            },
        )
    } else {
        None
    }
}

} // verus!
