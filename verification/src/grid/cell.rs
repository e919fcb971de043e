//! What a cell of a grid and a direction on a grid can do.

use std::ops::{Add, Mul, Sub};
use vstd::prelude::*;
use vstd::std_specs::ops::AddSpec;
use crate::math::{IVec3, Vec3};

verus! {

/// A direction on a grid.
pub trait CellDirection: Default + Clone + Copy {
    /// The direction one step clockwise.
    spec fn spec_rotate_clockwise(self) -> Self;

    /// The direction one step counter-clockwise.
    spec fn spec_rotate_counter_clockwise(self) -> Self;

    /// The step that the direction makes on the grid.
    spec fn spec_offset(self) -> IVec3;

    /// The direction one step clockwise.
    fn rotate_clockwise(self) -> (r: Self)
        ensures
            r == self.spec_rotate_clockwise(),
    ;

    /// The direction one step counter-clockwise.
    fn rotate_counter_clockwise(self) -> (r: Self)
        ensures
            r == self.spec_rotate_counter_clockwise(),
    ;

    /// The step that the direction makes on the grid.
    fn offset(self) -> (r: IVec3)
        ensures
            r == self.spec_offset(),
    ;
}

/// The square of the distance between two places given by column, row and floor.
pub open spec fn squared_distance(
    column: int,
    row: int,
    floor: int,
    other_column: int,
    other_row: int,
    other_floor: int,
) -> int {
    (other_column - column) * (other_column - column) + (other_row - row) * (other_row - row) + (
    other_floor - floor) * (other_floor - floor)
}

/// A cell of a grid.
pub trait GridCell: Default + Clone + Copy + PartialEq + Eq + From<IVec3> + Add<
    Self,
    Output = Self,
> + Add<IVec3, Output = Self> + Sub<Self, Output = Self> + Sub<IVec3, Output = Self> + Mul<
    i32,
    Output = Self,
> {
    type Direction: CellDirection;

    /// A number that stands for the cell and for no other.
    spec fn spec_key(&self) -> u64;

    /// No two cells have the same key.
    proof fn lemma_key_is_unique(a: Self, b: Self)
        requires
            a.spec_key() == b.spec_key(),
        ensures
            a == b,
    ;

    /// A number that stands for the cell and for no other.
    fn key(&self) -> (r: u64)
        ensures
            r == self.spec_key(),
    ;

    /// The column of the cell.
    spec fn spec_column(&self) -> i32;

    /// The row of the cell.
    spec fn spec_row(&self) -> i32;

    /// The floor of the cell.
    spec fn spec_floor(&self) -> i32;

    /// The cell that holds `point` on a grid of cells of side `size`.
    spec fn spec_from_point(point: Vec3, size: i64) -> Self;

    /// Whether the centre of the cell can be stored, on a grid of cells of side `size`.
    spec fn has_point(&self, size: i64) -> bool;

    /// The centre of the cell on a grid of cells of side `size`.
    spec fn spec_as_point(&self, size: i64) -> Vec3;

    /// Whether every cell around this one exists.
    spec fn has_neighbors(&self) -> bool;

    /// The cells around this one.
    spec fn spec_neighbors(&self) -> Seq<Self>;

    /// The directions on the grid, clockwise.
    spec fn spec_directions(&self) -> Seq<Self::Direction>;

    /// The column of the cell.
    fn column(&self) -> (r: i32)
        ensures
            r == self.spec_column(),
    ;

    /// The row of the cell.
    fn row(&self) -> (r: i32)
        ensures
            r == self.spec_row(),
    ;

    /// The floor of the cell.
    fn floor(&self) -> (r: i32)
        ensures
            r == self.spec_floor(),
    ;

    /// The cell that holds `point` on a grid of cells of side `size`.
    fn from_point(point: Vec3, size: i64) -> (r: Self)
        ensures
            r == Self::spec_from_point(point, size),
    ;

    /// The centre of the cell on a grid of cells of side `size`.
    fn as_point(&self, size: i64) -> (r: Vec3)
        requires
            self.has_point(size),
        ensures
            r == self.spec_as_point(size),
    ;

    /// The cells around this one.
    fn neighbors(&self) -> (r: Vec<Self>)
        requires
            self.has_neighbors(),
        ensures
            r@ == self.spec_neighbors(),
    ;

    /// The directions on the grid, clockwise.
    fn directions(&self) -> (r: Vec<Self::Direction>)
        ensures
            r@ == self.spec_directions(),
    ;

    /// The cell next to this one in `direction`.
    fn adjacent(&self, direction: Self::Direction) -> (r: Self)
        requires
            self.add_req(direction.spec_offset()),
        ensures
            <Self as AddSpec<IVec3>>::obeys_add_spec() ==> r == self.add_spec(
                direction.spec_offset(),
            ),
    {
        let dir: IVec3 = direction.offset();
        *self + dir
    }

    /// The square of the distance to `other`.
    fn distance(&self, other: Self) -> (r: u32)
        requires
            squared_distance(
                self.spec_column() as int,
                self.spec_row() as int,
                self.spec_floor() as int,
                other.spec_column() as int,
                other.spec_row() as int,
                other.spec_floor() as int,
            ) <= i32::MAX,
        ensures
            r == squared_distance(
                self.spec_column() as int,
                self.spec_row() as int,
                self.spec_floor() as int,
                other.spec_column() as int,
                other.spec_row() as int,
                other.spec_floor() as int,
            ),
    {
        let x: i128 = other.column() as i128 - self.column() as i128;
        let y: i128 = other.row() as i128 - self.row() as i128;
        let z: i128 = other.floor() as i128 - self.floor() as i128;
        assert(0 <= x * x <= 0x1_0000_0000_0000_0000 && 0 <= y * y <= 0x1_0000_0000_0000_0000 && 0
            <= z * z <= 0x1_0000_0000_0000_0000) by (nonlinear_arith)
            requires
                -0x1_0000_0000 <= x <= 0x1_0000_0000,
                -0x1_0000_0000 <= y <= 0x1_0000_0000,
                -0x1_0000_0000 <= z <= 0x1_0000_0000,
        ;
        (x * x + y * y + z * z) as u32
    }
}

} // verus!
