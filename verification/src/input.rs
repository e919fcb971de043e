//! What the player asks for, as plain values.

use vstd::prelude::*;
use crate::math::{Vec2, Vec3};
use crate::swizzles::Vec2SwizzlesExt;

verus! {

/// The one-shot action asked for in this frame.
#[derive(Clone, Copy, Debug, PartialEq, Eq, Structural)]
pub enum InputAction {
    /// Nothing is asked for.
    Idle,
    /// The jump key went down in this frame.
    Jump,
}

impl Default for InputAction {
    fn default() -> (r: Self)
        ensures
            r == InputAction::Idle,
    {
        InputAction::Idle
    }
}

impl InputAction {
    /// The action of a frame in which the jump key did or did not go down.
    pub fn from_keys(jump_pressed: bool) -> (r: Self)
        ensures
            r == (if jump_pressed { InputAction::Jump } else { InputAction::Idle }),
    {
        if jump_pressed {
            InputAction::Jump
        } else {
            InputAction::Idle
        }
    }
}

/// The steering input: a direction in the plane, of length one or zero.
#[derive(Clone, Copy, Debug, PartialEq, Eq, Structural)]
pub struct InputMovement(pub Vec2);

/// The position of an axis with a key for each end.
pub open spec fn axis(negative: bool, positive: bool) -> int {
    (if positive { 1int } else { 0int }) - (if negative { 1int } else { 0int })
}

impl Default for InputMovement {
    fn default() -> (r: Self)
        ensures
            r.0 == Vec2::zero(),
    {
        InputMovement(Vec2::zero())
    }
}

impl InputMovement {
    /// The steering input of a frame, from the four direction keys.
    pub fn from_keys(left: bool, right: bool, up: bool, down: bool) -> (r: Self)
        ensures
            r.0 == (Vec2 {
                x: (axis(left, right) * 1_000_000) as i64,
                y: (axis(up, down) * 1_000_000) as i64,
            }).spec_normalize_or_zero(),
    {
        let mut x: i64 = 0;
        let mut y: i64 = 0;
        if left {
            x = x - 1_000_000;
        }
        if right {
            x = x + 1_000_000;
        }
        if up {
            y = y - 1_000_000;
        }
        if down {
            y = y + 1_000_000;
        }
        InputMovement(Vec2::new(x, y).normalize_or_zero())
    }

    /// The sideways part.
    pub fn x(&self) -> (r: i64)
        ensures
            r == self.0.x,
    {
        self.0.x
    }

    /// The part along the depth.
    pub fn y(&self) -> (r: i64)
        ensures
            r == self.0.y,
    {
        self.0.y
    }

    /// The input as a vector in the plane.
    pub fn xy(&self) -> (r: Vec2)
        ensures
            r == self.0,
    {
        self.0
    }

    /// The input as a vector in space, at height zero.
    pub fn x0z(&self) -> (r: Vec3)
        ensures
            r == (Vec3 { x: self.0.x, y: 0, z: self.0.y }),
    {
        self.0.x0z()
    }

    /// Whether nothing is asked for.
    pub fn is_zero(&self) -> (r: bool)
        ensures
            r == (self.0 == Vec2::zero()),
    {
        self.0.x == 0 && self.0.y == 0
    }
}

} // verus!
