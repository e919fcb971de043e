//! Moving between vectors in the plane and vectors in space, whose `y` points up.

use vstd::prelude::*;
use crate::math::{IVec2, IVec3, Vec2, Vec3};

verus! {

/// From the plane into space: the plane's `y` becomes the depth `z`.
pub trait Vec2SwizzlesExt: Sized {
    type Vec3;

    type Number;

    /// The vector in space at height `y`.
    spec fn spec_x_z(self, y: Self::Number) -> Self::Vec3;

    /// The vector in space at height zero.
    spec fn spec_x0z(self) -> Self::Vec3;

    /// The vector in space at height zero.
    fn x0z(self) -> (r: Self::Vec3)
        ensures
            r == self.spec_x0z(),
    ;

    /// The vector in space at height `y`.
    fn x_z(self, y: Self::Number) -> (r: Self::Vec3)
        ensures
            r == self.spec_x_z(y),
    ;
}

/// From space into the plane, and between heights.
pub trait Vec3SwizzlesExt: Sized {
    type Vec2;

    type Number;

    /// The horizontal part, as a vector in the plane.
    spec fn spec_xz(self) -> Self::Vec2;

    /// The same vector at height `y`.
    spec fn spec_x_z(self, y: Self::Number) -> Self;

    /// The same vector at height zero.
    spec fn spec_x0z(self) -> Self;

    /// The horizontal part, as a vector in the plane.
    fn xz(self) -> (r: Self::Vec2)
        ensures
            r == self.spec_xz(),
    ;

    /// The same vector at height zero.
    fn x0z(self) -> (r: Self)
        ensures
            r == self.spec_x0z(),
    ;

    /// The same vector at height `y`.
    fn x_z(self, y: Self::Number) -> (r: Self)
        ensures
            r == self.spec_x_z(y),
    ;
}

impl Vec2SwizzlesExt for IVec2 {
    type Vec3 = IVec3;

    type Number = i32;

    open spec fn spec_x_z(self, y: i32) -> IVec3 {
        IVec3 { x: self.x, y, z: self.y }
    }

    open spec fn spec_x0z(self) -> IVec3 {
        IVec3 { x: self.x, y: 0, z: self.y }
    }

    fn x0z(self) -> IVec3 {
        self.x_z(0)
    }

    fn x_z(self, y: i32) -> IVec3 {
        IVec3::new(self.x, y, self.y)
    }
}

impl Vec2SwizzlesExt for Vec2 {
    type Vec3 = Vec3;

    type Number = i64;

    open spec fn spec_x_z(self, y: i64) -> Vec3 {
        Vec3 { x: self.x, y, z: self.y }
    }

    open spec fn spec_x0z(self) -> Vec3 {
        Vec3 { x: self.x, y: 0, z: self.y }
    }

    fn x0z(self) -> Vec3 {
        self.x_z(0)
    }

    fn x_z(self, y: i64) -> Vec3 {
        Vec3::new(self.x, y, self.y)
    }
}

impl Vec3SwizzlesExt for IVec3 {
    type Vec2 = IVec2;

    type Number = i32;

    open spec fn spec_xz(self) -> IVec2 {
        IVec2 { x: self.x, y: self.z }
    }

    open spec fn spec_x_z(self, y: i32) -> IVec3 {
        IVec3 { x: self.x, y, z: self.z }
    }

    open spec fn spec_x0z(self) -> IVec3 {
        IVec3 { x: self.x, y: 0, z: self.z }
    }

    fn xz(self) -> IVec2 {
        IVec2::new(self.x, self.z)
    }

    fn x0z(self) -> IVec3 {
        self.x_z(0)
    }

    fn x_z(self, y: i32) -> IVec3 {
        IVec3::new(self.x, y, self.z)
    }
}

impl Vec3SwizzlesExt for Vec3 {
    type Vec2 = Vec2;

    type Number = i64;

    open spec fn spec_xz(self) -> Vec2 {
        Vec2 { x: self.x, y: self.z }
    }

    open spec fn spec_x_z(self, y: i64) -> Vec3 {
        Vec3 { x: self.x, y, z: self.z }
    }

    open spec fn spec_x0z(self) -> Vec3 {
        Vec3 { x: self.x, y: 0, z: self.z }
    }

    fn xz(self) -> Vec2 {
        Vec2::new(self.x, self.z)
    }

    fn x0z(self) -> Vec3 {
        self.x_z(0)
    }

    fn x_z(self, y: i64) -> Vec3 {
        Vec3::new(self.x, y, self.z)
    }
}

} // verus!
