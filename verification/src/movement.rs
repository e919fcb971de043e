//! Moving a point toward another, and the direction from one to the other.

use vstd::prelude::*;
use crate::interpolation::{lemma_lerp_between, lerp3, spec_lerp3};
use crate::math::{
    fits, is_sqrt, isqrt, lemma_root_bounds_part, lemma_sqrt_exists, lemma_square_bound,
    lemma_trunc_div_within, narrow, sqrt_floor, square, trunc_div, Fraction, Vec3, UNIT,
};

verus! {

/// Whether the way from `from` to `to` fits in a vector.
pub open spec fn span_fits(from: Vec3, to: Vec3) -> bool {
    fits(to.x - from.x) && fits(to.y - from.y) && fits(to.z - from.z)
}

/// The square of the distance between two points.
pub open spec fn distance_squared(from: Vec3, to: Vec3) -> nat {
    ((to.x - from.x) * (to.x - from.x) + (to.y - from.y) * (to.y - from.y) + (to.z - from.z) * (
    to.z - from.z)) as nat
}

/// The distance between two points, rounded down.
pub open spec fn distance(from: Vec3, to: Vec3) -> nat {
    sqrt_floor(distance_squared(from, to))
}

/// The point reached from `position` by a step of length `step` toward
/// `target`: the target itself where it is within the step. `None` where
/// the way to the target does not fit in a vector.
pub open spec fn spec_move_towards(position: Vec3, target: Vec3, step: u64) -> Option<Vec3> {
    if !span_fits(position, target) {
        None
    } else if distance_squared(position, target) <= step * step {
        Some(target)
    } else {
        Some(
            spec_lerp3(
                position,
                target,
                Fraction { part: step, whole: distance(position, target) as u64 },
            ),
        )
    }
}

/// The vector of length one that points from `from` to `to`. `None` where
/// the points are less than one millionth apart, or the way between them
/// does not fit in a vector.
pub open spec fn spec_direction(from: Vec3, to: Vec3) -> Option<Vec3> {
    let length = distance(from, to) as int;
    if !span_fits(from, to) || length == 0 {
        None
    } else {
        Some(
            Vec3 {
                x: trunc_div((to.x - from.x) * UNIT, length) as i64,
                y: trunc_div((to.y - from.y) * UNIT, length) as i64,
                z: trunc_div((to.z - from.z) * UNIT, length) as i64,
            },
        )
    }
}

/// The way from `from` to `to`, its squared length and its length.
fn span(from: Vec3, to: Vec3) -> (r: Option<(Vec3, u128, u64)>)
    ensures
        r.is_some() <==> span_fits(from, to),
        r matches Some((way, squared, length)) ==> {
            &&& way.x == to.x - from.x
            &&& way.y == to.y - from.y
            &&& way.z == to.z - from.z
            &&& squared == distance_squared(from, to)
            &&& length == distance(from, to)
            &&& is_sqrt(length as nat, squared as nat)
        },
{
    let x = narrow(to.x as i128 - from.x as i128);
    let y = narrow(to.y as i128 - from.y as i128);
    let z = narrow(to.z as i128 - from.z as i128);
    match (x, y, z) {
        (Some(x), Some(y), Some(z)) => {
            let squared: u128 = square(x) + square(y) + square(z);
            Some((Vec3 { x, y, z }, squared, isqrt(squared)))
        },
        _ => None,
    }
}

/// Moves `position` toward `target` by a step of length `step`, and not
/// beyond the target.
pub fn move_towards(position: Vec3, target: Vec3, step: u64) -> (r: Option<Vec3>)
    ensures
        r == spec_move_towards(position, target, step),
{
    match span(position, target) {
        None => None,
        Some((_, squared, length)) => {
            assert(0 <= step * step <= 0xffff_ffff_ffff_ffff * 0xffff_ffff_ffff_ffff)
                by (nonlinear_arith)
                requires
                    0 <= step <= 0xffff_ffff_ffff_ffff,
            ;
            if squared <= (step as u128) * (step as u128) {
                Some(target)
            } else {
                assert(step <= length && length > 0) by (nonlinear_arith)
                    requires
                        step * step < squared,
                        squared < (length + 1) * (length + 1),
                        step >= 0,
                        length >= 0,
                ;
                Some(lerp3(position, target, Fraction { part: step, whole: length }))
            }
        },
    }
}

/// No step overshoots: each coordinate of the point reached lies between
/// where it was and the target.
pub proof fn lemma_move_towards_between(position: Vec3, target: Vec3, step: u64)
    requires
        spec_move_towards(position, target, step).is_some(),
    ensures
        ({
            let reached = spec_move_towards(position, target, step).unwrap();
            &&& position.x <= target.x ==> position.x <= reached.x <= target.x
            &&& target.x <= position.x ==> target.x <= reached.x <= position.x
            &&& position.y <= target.y ==> position.y <= reached.y <= target.y
            &&& target.y <= position.y ==> target.y <= reached.y <= position.y
            &&& position.z <= target.z ==> position.z <= reached.z <= target.z
            &&& target.z <= position.z ==> target.z <= reached.z <= position.z
        }),
{
    let squared = distance_squared(position, target);
    if squared > step * step {
        let length = distance(position, target);
        lemma_sqrt_exists(squared);
        assert(step <= length && length > 0) by (nonlinear_arith)
            requires
                step * step < squared,
                squared < (length + 1) * (length + 1),
                step >= 0,
                length >= 0,
        ;
        lemma_square_bound(target.x - position.x);
        lemma_square_bound(target.y - position.y);
        lemma_square_bound(target.z - position.z);
        assert(length <= u64::MAX) by (nonlinear_arith)
            requires
                length * length <= squared,
                squared <= 3 * 0x4000_0000_0000_0000_0000_0000_0000_0000,
                length >= 0,
        ;
        let alpha = Fraction { part: step, whole: length as u64 };
        lemma_lerp_between(position.x as int, target.x as int, alpha);
        lemma_lerp_between(position.y as int, target.y as int, alpha);
        lemma_lerp_between(position.z as int, target.z as int, alpha);
    }
}

/// The vector of length one that points from `from` to `to`.
pub fn direction(from: Vec3, to: Vec3) -> (r: Option<Vec3>)
    ensures
        r == spec_direction(from, to),
{
    match span(from, to) {
        None => None,
        Some((way, squared, length)) => {
            if length == 0 {
                return None;
            }
            proof {
                assert(way.x * way.x >= 0 && way.y * way.y >= 0 && way.z * way.z >= 0)
                    by (nonlinear_arith);
                lemma_root_bounds_part(way.x as int, squared as nat, length as nat);
                lemma_root_bounds_part(way.y as int, squared as nat, length as nat);
                lemma_root_bounds_part(way.z as int, squared as nat, length as nat);
                lemma_trunc_div_within(way.x * UNIT, length as int, UNIT as int);
                lemma_trunc_div_within(way.y * UNIT, length as int, UNIT as int);
                lemma_trunc_div_within(way.z * UNIT, length as int, UNIT as int);
            }
            let x: i128 = (way.x as i128 * UNIT as i128) / (length as i128);
            let y: i128 = (way.y as i128 * UNIT as i128) / (length as i128);
            let z: i128 = (way.z as i128 * UNIT as i128) / (length as i128);
            Some(Vec3 { x: x as i64, y: y as i64, z: z as i64 })
        },
    }
}

} // verus!
