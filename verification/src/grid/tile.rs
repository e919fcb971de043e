//! What a grid and a tile on a grid can do.

use vstd::prelude::*;
use crate::grid::cell::{squared_distance, GridCell};
use crate::math::Vec3;

verus! {

/// A grid: tiles by cell, and cells by point.
pub trait Grid<C: GridCell, T: GridTile<C>> {
    /// Whether the grid is well formed: every grid that its maker hands out is.
    spec fn wf(&self) -> bool;

    /// The tiles of the grid, by the key of their cell.
    spec fn spec_tiles(&self) -> Map<u64, T>;

    /// The side of a cell.
    spec fn spec_cell_size(&self) -> i64;

    /// The cell that holds `point`.
    fn get_cell(&self, point: Vec3) -> (r: C)
        ensures
            r == C::spec_from_point(point, self.spec_cell_size()),
    ;

    /// The centre of `cell`.
    fn get_point(&self, cell: C) -> (r: Vec3)
        requires
            cell.has_point(self.spec_cell_size()),
        ensures
            r == cell.spec_as_point(self.spec_cell_size()),
    ;

    /// The tile on `cell`, if there is one.
    fn get_tile(&self, cell: C) -> (r: Option<&T>)
        requires
            self.wf(),
        ensures
            r == (if self.spec_tiles().contains_key(cell.spec_key()) {
                Some(&self.spec_tiles()[cell.spec_key()])
            } else {
                None
            }),
    ;

    /// Puts `tile` on `cell`, and gives back the tile that was there.
    fn set_tile(&mut self, cell: C, tile: T) -> (r: Option<T>)
        requires
            old(self).wf(),
        ensures
            final(self).wf(),
            final(self).spec_tiles() == old(self).spec_tiles().insert(cell.spec_key(), tile),
            final(self).spec_cell_size() == old(self).spec_cell_size(),
            r == (if old(self).spec_tiles().contains_key(cell.spec_key()) {
                Some(old(self).spec_tiles()[cell.spec_key()])
            } else {
                None
            }),
    ;
}

/// A tile on a grid.
pub trait GridTile<C: GridCell>: Default {
    /// Whether the tile can be walked on.
    spec fn spec_is_walkable(&self) -> bool;

    /// Whether every cell that the tile on `cell` borders exists.
    spec fn has_neighbors(&self, cell: C) -> bool;

    /// The cells that the tile on `cell` borders.
    spec fn spec_neighbors(&self, cell: C) -> Seq<C>;

    /// Whether the tile can be walked on.
    fn is_walkable(&self) -> (r: bool)
        ensures
            r == self.spec_is_walkable(),
    ;

    /// The cells that the tile on `cell` borders.
    fn neighbors(&self, cell: C) -> (r: Vec<C>)
        requires
            self.has_neighbors(cell),
        ensures
            r@ == self.spec_neighbors(cell),
    ;

    /// The estimated cost of the way from `cell` to `goal`: the square of
    /// their distance.
    fn heuristic(&self, cell: C, goal: C) -> (r: u32)
        requires
            squared_distance(
                cell.spec_column() as int,
                cell.spec_row() as int,
                cell.spec_floor() as int,
                goal.spec_column() as int,
                goal.spec_row() as int,
                goal.spec_floor() as int,
            ) <= i32::MAX,
        ensures
            r == squared_distance(
                cell.spec_column() as int,
                cell.spec_row() as int,
                cell.spec_floor() as int,
                goal.spec_column() as int,
                goal.spec_row() as int,
                goal.spec_floor() as int,
            ),
    {
        cell.distance(goal)
    }
}

} // verus!
