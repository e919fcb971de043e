//! Square cells in the plane, and the eight directions between them.

use std::ops::{Add, Mul, Sub};
use vstd::prelude::*;
use vstd::std_specs::convert::FromSpecImpl;
use vstd::std_specs::ops::{AddSpecImpl, MulSpecImpl, SubSpecImpl};
use crate::grid::cell::{CellDirection, GridCell};
use crate::math::{div_floor, fits, floor_div, narrow, trunc_div, IVec2, IVec3, Vec3};

verus! {

/// A square cell, by column and row.
#[derive(Debug, Clone, Copy, Hash, PartialEq, Eq, Structural)]
pub struct SquareCell {
    pub column: i32,
    pub row: i32,
}

/// Whether an integer can be stored as a column or a row.
pub open spec fn fits_cell(v: int) -> bool {
    i32::MIN <= v <= i32::MAX
}

/// The column or row nearest to `v`.
pub open spec fn clamp_cell(v: int) -> i32 {
    if v < i32::MIN {
        i32::MIN
    } else if v > i32::MAX {
        i32::MAX
    } else {
        v as i32
    }
}

/// The column or row that holds the coordinate `at` on a grid of cells of
/// side `size`: the nearest one where it cannot be stored. On cells without
/// size, every coordinate but zero lies in the furthest cell on its side.
pub open spec fn cell_of(at: i64, size: i64) -> i32 {
    if size != 0 {
        clamp_cell(floor_div(at as int, size as int))
    } else if at > 0 {
        i32::MAX
    } else if at < 0 {
        i32::MIN
    } else {
        0
    }
}

/// The column or row that holds the coordinate `at` on a grid of cells of side `size`.
fn locate(at: i64, size: i64) -> (r: i32)
    ensures
        r == cell_of(at, size),
{
    if size != 0 {
        clamp_to_cell(div_floor(at, size))
    } else if at > 0 {
        0x7fff_ffff
    } else if at < 0 {
        -0x8000_0000
    } else {
        0
    }
}

/// The column or row nearest to `v`.
fn clamp_to_cell(v: i128) -> (r: i32)
    ensures
        r == clamp_cell(v as int),
{
    if v < -0x8000_0000 {
        -0x8000_0000
    } else if v > 0x7fff_ffff {
        0x7fff_ffff
    } else {
        v as i32
    }
}

impl SquareCell {
    /// The cell at `column` and `row`.
    pub fn new(column: i32, row: i32) -> (r: Self)
        ensures
            r == (SquareCell { column, row }),
    {
        Self { column, row }
    }

    /// The cell at the origin.
    pub open spec fn spec_zero() -> SquareCell {
        SquareCell { column: 0, row: 0 }
    }

    /// The cell at the origin.
    #[verifier::when_used_as_spec(spec_zero)]
    pub fn zero() -> (r: Self)
        ensures
            r == Self::spec_zero(),
    {
        Self { column: 0, row: 0 }
    }

    /// The cell that lies `columns` and `rows` away.
    pub open spec fn shifted(self, columns: int, rows: int) -> SquareCell {
        SquareCell { column: (self.column + columns) as i32, row: (self.row + rows) as i32 }
    }

    /// A coordinate of the centre of a cell, on a grid of cells of side `size`.
    pub open spec fn centre(place: i32, size: i64) -> int {
        place * size + trunc_div(size as int, 2)
    }

    /// A coordinate of the centre of a cell, on a grid of cells of side `size`.
    fn centre_of(place: i32, size: i64) -> (r: i128)
        ensures
            r == Self::centre(place, size),
    {
        assert(-0x4000_0000_0000_0000_0000_0000 <= place * size <= 0x4000_0000_0000_0000_0000_0000)
            by (nonlinear_arith)
            requires
                -0x8000_0000 <= place <= 0x8000_0000,
                -0x8000_0000_0000_0000 <= size <= 0x8000_0000_0000_0000,
        ;
        place as i128 * size as i128 + (size / 2) as i128
    }

    /// Whether the centre of the cell can be stored, on a grid of cells of side `size`.
    pub fn point_fits(&self, size: i64) -> (r: bool)
        ensures
            r == self.has_point(size),
    {
        narrow(Self::centre_of(self.column, size)).is_some() && narrow(
            Self::centre_of(self.row, size),
        ).is_some()
    }
}

impl Default for SquareCell {
    fn default() -> (r: Self)
        ensures
            r == SquareCell::spec_zero(),
    {
        Self { column: 0, row: 0 }
    }
}

impl From<IVec3> for SquareCell {
    fn from(v: IVec3) -> (r: Self) {
        Self::new(v.x, v.z)
    }
}

impl FromSpecImpl<IVec3> for SquareCell {
    open spec fn obeys_from_spec() -> bool {
        true
    }

    open spec fn from_spec(v: IVec3) -> Self {
        SquareCell { column: v.x, row: v.z }
    }
}

impl Add<Self> for SquareCell {
    type Output = Self;

    fn add(self, rhs: Self) -> (r: Self) {
        Self::new(self.column + rhs.column, self.row + rhs.row)
    }
}

impl AddSpecImpl<Self> for SquareCell {
    open spec fn obeys_add_spec() -> bool {
        true
    }

    open spec fn add_req(self, rhs: Self) -> bool {
        fits_cell(self.column + rhs.column) && fits_cell(self.row + rhs.row)
    }

    open spec fn add_spec(self, rhs: Self) -> Self {
        self.shifted(rhs.column as int, rhs.row as int)
    }
}

impl Add<IVec3> for SquareCell {
    type Output = Self;

    fn add(self, rhs: IVec3) -> (r: Self) {
        Self::new(self.column + rhs.x, self.row + rhs.z)
    }
}

impl AddSpecImpl<IVec3> for SquareCell {
    open spec fn obeys_add_spec() -> bool {
        true
    }

    open spec fn add_req(self, rhs: IVec3) -> bool {
        fits_cell(self.column + rhs.x) && fits_cell(self.row + rhs.z)
    }

    open spec fn add_spec(self, rhs: IVec3) -> Self {
        self.shifted(rhs.x as int, rhs.z as int)
    }
}

impl Sub<Self> for SquareCell {
    type Output = Self;

    fn sub(self, rhs: Self) -> (r: Self) {
        Self::new(self.column - rhs.column, self.row - rhs.row)
    }
}

impl SubSpecImpl<Self> for SquareCell {
    open spec fn obeys_sub_spec() -> bool {
        true
    }

    open spec fn sub_req(self, rhs: Self) -> bool {
        fits_cell(self.column - rhs.column) && fits_cell(self.row - rhs.row)
    }

    open spec fn sub_spec(self, rhs: Self) -> Self {
        self.shifted(-rhs.column, -rhs.row)
    }
}

impl Sub<IVec3> for SquareCell {
    type Output = Self;

    fn sub(self, rhs: IVec3) -> (r: Self) {
        Self::new(self.column - rhs.x, self.row - rhs.z)
    }
}

impl SubSpecImpl<IVec3> for SquareCell {
    open spec fn obeys_sub_spec() -> bool {
        true
    }

    open spec fn sub_req(self, rhs: IVec3) -> bool {
        fits_cell(self.column - rhs.x) && fits_cell(self.row - rhs.z)
    }

    open spec fn sub_spec(self, rhs: IVec3) -> Self {
        self.shifted(-rhs.x, -rhs.z)
    }
}

impl Mul<i32> for SquareCell {
    type Output = Self;

    fn mul(self, rhs: i32) -> (r: Self) {
        Self::new(self.column * rhs, self.row * rhs)
    }
}

impl MulSpecImpl<i32> for SquareCell {
    open spec fn obeys_mul_spec() -> bool {
        true
    }

    open spec fn mul_req(self, rhs: i32) -> bool {
        fits_cell(self.column * rhs) && fits_cell(self.row * rhs)
    }

    open spec fn mul_spec(self, rhs: i32) -> Self {
        SquareCell { column: (self.column * rhs) as i32, row: (self.row * rhs) as i32 }
    }
}

impl GridCell for SquareCell {
    type Direction = SquareDirection;

    open spec fn spec_key(&self) -> u64 {
        ((self.column + 0x8000_0000) * 0x1_0000_0000 + (self.row + 0x8000_0000)) as u64
    }

    proof fn lemma_key_is_unique(a: Self, b: Self) {
    }

    fn key(&self) -> (r: u64) {
        let column: u64 = (self.column as i64 + 0x8000_0000) as u64;
        let row: u64 = (self.row as i64 + 0x8000_0000) as u64;
        column * 0x1_0000_0000 + row
    }

    open spec fn spec_column(&self) -> i32 {
        self.column
    }

    open spec fn spec_row(&self) -> i32 {
        self.row
    }

    open spec fn spec_floor(&self) -> i32 {
        0
    }

    open spec fn spec_from_point(point: Vec3, size: i64) -> Self {
        SquareCell { column: cell_of(point.x, size), row: cell_of(point.z, size) }
    }

    open spec fn has_point(&self, size: i64) -> bool {
        fits(Self::centre(self.column, size)) && fits(Self::centre(self.row, size))
    }

    open spec fn spec_as_point(&self, size: i64) -> Vec3 {
        Vec3 {
            x: Self::centre(self.column, size) as i64,
            y: 0,
            z: Self::centre(self.row, size) as i64,
        }
    }

    open spec fn has_neighbors(&self) -> bool {
        i32::MIN < self.column < i32::MAX && i32::MIN < self.row < i32::MAX
    }

    open spec fn spec_neighbors(&self) -> Seq<Self> {
        seq![
            self.shifted(-1, 1),
            self.shifted(0, 1),
            self.shifted(1, 1),
            self.shifted(-1, 0),
            self.shifted(1, 0),
            self.shifted(-1, -1),
            self.shifted(0, -1),
            self.shifted(1, -1),
        ]
    }

    open spec fn spec_directions(&self) -> Seq<SquareDirection> {
        seq![
            SquareDirection::North,
            SquareDirection::NorthEast,
            SquareDirection::East,
            SquareDirection::SouthEast,
            SquareDirection::South,
            SquareDirection::SouthWest,
            SquareDirection::West,
            SquareDirection::NorthWest,
        ]
    }

    fn column(&self) -> (r: i32) {
        self.column
    }

    fn row(&self) -> (r: i32) {
        self.row
    }

    fn floor(&self) -> (r: i32) {
        0
    }

    fn from_point(point: Vec3, size: i64) -> (r: Self) {
        Self { column: locate(point.x, size), row: locate(point.z, size) }
    }

    fn as_point(&self, size: i64) -> (r: Vec3) {
        let x: i128 = Self::centre_of(self.column, size);
        let z: i128 = Self::centre_of(self.row, size);
        Vec3::new(x as i64, 0, z as i64)
    }

    fn neighbors(&self) -> (r: Vec<Self>) {
        let cell = *self;
        let r = vec![
            cell + Self::new(-1, 1),
            cell + Self::new(0, 1),
            cell + Self::new(1, 1),
            cell + Self::new(-1, 0),
            cell + Self::new(1, 0),
            cell + Self::new(-1, -1),
            cell + Self::new(0, -1),
            cell + Self::new(1, -1),
        ];
        assert(r@ =~= self.spec_neighbors());
        r
    }

    fn directions(&self) -> (r: Vec<SquareDirection>) {
        let r = vec![
            SquareDirection::North,
            SquareDirection::NorthEast,
            SquareDirection::East,
            SquareDirection::SouthEast,
            SquareDirection::South,
            SquareDirection::SouthWest,
            SquareDirection::West,
            SquareDirection::NorthWest,
        ];
        assert(r@ =~= self.spec_directions());
        r
    }
}

/// The eight directions on a square grid, clockwise from north.
#[derive(Debug, Clone, Copy, PartialEq, Eq, Structural)]
pub enum SquareDirection {
    North,
    NorthEast,
    East,
    SouthEast,
    South,
    SouthWest,
    West,
    NorthWest,
}

impl Default for SquareDirection {
    fn default() -> (r: Self)
        ensures
            r == SquareDirection::North,
    {
        Self::North
    }
}

impl SquareDirection {
    /// The place of the direction, clockwise from north.
    pub open spec fn spec_index(self) -> u8 {
        match self {
            SquareDirection::North => 0,
            SquareDirection::NorthEast => 1,
            SquareDirection::East => 2,
            SquareDirection::SouthEast => 3,
            SquareDirection::South => 4,
            SquareDirection::SouthWest => 5,
            SquareDirection::West => 6,
            SquareDirection::NorthWest => 7,
        }
    }

    /// The place of the direction, clockwise from north.
    #[verifier::when_used_as_spec(spec_index)]
    pub fn index(self) -> (r: u8)
        ensures
            r == self.spec_index(),
    {
        match self {
            SquareDirection::North => 0,
            SquareDirection::NorthEast => 1,
            SquareDirection::East => 2,
            SquareDirection::SouthEast => 3,
            SquareDirection::South => 4,
            SquareDirection::SouthWest => 5,
            SquareDirection::West => 6,
            SquareDirection::NorthWest => 7,
        }
    }

    /// The direction at place `i` clockwise from north, counted round the compass.
    pub open spec fn spec_from_index(i: u8) -> SquareDirection {
        let index = i % 8;
        if index == 0 {
            SquareDirection::North
        } else if index == 1 {
            SquareDirection::NorthEast
        } else if index == 2 {
            SquareDirection::East
        } else if index == 3 {
            SquareDirection::SouthEast
        } else if index == 4 {
            SquareDirection::South
        } else if index == 5 {
            SquareDirection::SouthWest
        } else if index == 6 {
            SquareDirection::West
        } else {
            SquareDirection::NorthWest
        }
    }

    /// The step that the direction makes in the plane.
    pub open spec fn spec_step(self) -> IVec2 {
        match self {
            SquareDirection::North => IVec2 { x: 0, y: 1 },
            SquareDirection::NorthEast => IVec2 { x: 1, y: (-1i32) },
            SquareDirection::East => IVec2 { x: 1, y: 0 },
            SquareDirection::SouthEast => IVec2 { x: 1, y: 1 },
            SquareDirection::South => IVec2 { x: 0, y: 1 },
            SquareDirection::SouthWest => IVec2 { x: (-1i32), y: 1 },
            SquareDirection::West => IVec2 { x: (-1i32), y: 0 },
            SquareDirection::NorthWest => IVec2 { x: (-1i32), y: (-1i32) },
        }
    }
}

impl From<u8> for SquareDirection {
    fn from(i: u8) -> (r: Self) {
        let index: u8 = i % 8;
        match index {
            0 => SquareDirection::North,
            1 => SquareDirection::NorthEast,
            2 => SquareDirection::East,
            3 => SquareDirection::SouthEast,
            4 => SquareDirection::South,
            5 => SquareDirection::SouthWest,
            6 => SquareDirection::West,
            _ => SquareDirection::NorthWest,
        }
    }
}

impl FromSpecImpl<u8> for SquareDirection {
    open spec fn obeys_from_spec() -> bool {
        true
    }

    open spec fn from_spec(i: u8) -> Self {
        SquareDirection::spec_from_index(i)
    }
}

impl From<SquareDirection> for IVec2 {
    fn from(direction: SquareDirection) -> (r: Self) {
        match direction {
            SquareDirection::North => IVec2::new(0, 1),
            SquareDirection::NorthEast => IVec2::new(1, -1),
            SquareDirection::East => IVec2::new(1, 0),
            SquareDirection::SouthEast => IVec2::new(1, 1),
            SquareDirection::South => IVec2::new(0, 1),
            SquareDirection::SouthWest => IVec2::new(-1, 1),
            SquareDirection::West => IVec2::new(-1, 0),
            SquareDirection::NorthWest => IVec2::new(-1, -1),
        }
    }
}

impl FromSpecImpl<SquareDirection> for IVec2 {
    open spec fn obeys_from_spec() -> bool {
        true
    }

    open spec fn from_spec(direction: SquareDirection) -> Self {
        direction.spec_step()
    }
}

impl From<SquareDirection> for IVec3 {
    fn from(direction: SquareDirection) -> (r: Self) {
        let v = IVec2::from(direction);
        IVec3::new(v.x, 0, v.y)
    }
}

impl FromSpecImpl<SquareDirection> for IVec3 {
    open spec fn obeys_from_spec() -> bool {
        true
    }

    open spec fn from_spec(direction: SquareDirection) -> Self {
        IVec3 { x: direction.spec_step().x, y: 0, z: direction.spec_step().y }
    }
}

impl CellDirection for SquareDirection {
    open spec fn spec_rotate_clockwise(self) -> Self {
        SquareDirection::spec_from_index((self.spec_index() + 1) as u8)
    }

    open spec fn spec_rotate_counter_clockwise(self) -> Self {
        SquareDirection::spec_from_index((self.spec_index() + 7) as u8)
    }

    open spec fn spec_offset(self) -> IVec3 {
        IVec3 { x: self.spec_step().x, y: 0, z: self.spec_step().y }
    }

    fn rotate_clockwise(self) -> (r: Self) {
        let next: u8 = self.index() + 1;
        SquareDirection::from(next)
    }

    fn rotate_counter_clockwise(self) -> (r: Self) {
        let index: u8 = self.index();
        if index == 0 {
            return SquareDirection::NorthWest;
        }
        let previous: u8 = index - 1;
        SquareDirection::from(previous)
    }

    fn offset(self) -> (r: IVec3) {
        IVec3::from(self)
    }
}

/// Turning one step one way and one step back gives the direction again.
pub proof fn lemma_rotations_undo(direction: SquareDirection)
    ensures
        direction.spec_rotate_clockwise().spec_rotate_counter_clockwise() == direction,
        direction.spec_rotate_counter_clockwise().spec_rotate_clockwise() == direction,
{
}

} // verus!
