//! The board: platforms on a grid of square cells.

use vstd::prelude::*;
use vstd::arithmetic::div_mod::{lemma_fundamental_div_mod, lemma_fundamental_div_mod_converse};
use crate::grid::cell::GridCell;
use crate::grid::infinite::GridInfinite;
use crate::grid::iter::{box_offset, CellBoxIter, CellDirectionIter};
use crate::grid::square_cell::{SquareCell, SquareDirection};
use crate::grid::tile::{Grid, GridTile};
use crate::math::{IVec3, Vec3};
use crate::player::SurfaceTag;

verus! {

/// What a cell of the board is covered with.
#[derive(Clone, Copy, Debug, PartialEq, Eq, Structural)]
pub enum Platform {
    Ground,
    Ice,
    Skate,
}

impl Default for Platform {
    fn default() -> (r: Self)
        ensures
            r == Platform::Ground,
    {
        Platform::Ground
    }
}

impl<C: GridCell> GridTile<C> for Platform {
    open spec fn spec_is_walkable(&self) -> bool {
        false
    }

    open spec fn has_neighbors(&self, cell: C) -> bool {
        cell.has_neighbors()
    }

    open spec fn spec_neighbors(&self, cell: C) -> Seq<C> {
        cell.spec_neighbors()
    }

    fn is_walkable(&self) -> (r: bool) {
        false
    }

    fn neighbors(&self, cell: C) -> (r: Vec<C>) {
        cell.neighbors()
    }
}

impl Platform {
    /// What a probe that hits this platform finds.
    pub open spec fn spec_surface(self) -> SurfaceTag {
        match self {
            Platform::Ground => SurfaceTag::Solid,
            Platform::Ice => SurfaceTag::Ice,
            Platform::Skate => SurfaceTag::Conveyor,
        }
    }

    /// What a probe that hits this platform finds.
    #[verifier::when_used_as_spec(spec_surface)]
    pub fn surface(self) -> (r: SurfaceTag)
        ensures
            r == self.spec_surface(),
    {
        match self {
            Platform::Ground => SurfaceTag::Solid,
            Platform::Ice => SurfaceTag::Ice,
            Platform::Skate => SurfaceTag::Conveyor,
        }
    }
}

/// A block of the level.
#[derive(Clone, Copy, Debug, PartialEq, Eq, Structural)]
pub enum Block {
    Ground,
    Ground2,
    Ice,
    Spinner,
    Cube,
}

impl Block {
    /// What a probe that hits this block finds.
    pub open spec fn spec_surface(self) -> SurfaceTag {
        match self {
            Block::Ice => SurfaceTag::Ice,
            _ => SurfaceTag::Solid,
        }
    }

    /// What a probe that hits this block finds.
    #[verifier::when_used_as_spec(spec_surface)]
    pub fn surface(self) -> (r: SurfaceTag)
        ensures
            r == self.spec_surface(),
    {
        match self {
            Block::Ice => SurfaceTag::Ice,
            _ => SurfaceTag::Solid,
        }
    }
}

/// The platforms of the board, on cells of side one.
pub struct Platforms(pub GridInfinite<SquareCell, Platform>);

impl Platforms {
    /// The board without platforms.
    pub fn new() -> (r: Self)
        ensures
            r.0.wf(),
            r.0.spec_tiles() == (Map::<u64, Platform>::empty()),
            r.0.spec_cell_size() == 1_000_000,
    {
        Self(GridInfinite::new(1_000_000))
    }
}

impl Platforms {
    /// What lies beneath an agent at `position`: nothing above the floor,
    /// and on the floor the platform of its cell, or plain ground where
    /// the cell has none.
    pub fn probe(&self, position: Vec3) -> (r: Option<SurfaceTag>)
        requires
            self.0.wf(),
        ensures
            ({
                let key = SquareCell::spec_from_point(position, self.0.spec_cell_size()).spec_key();
                r == (if position.y > 0 {
                    None
                } else if self.0.spec_tiles().contains_key(key) {
                    Some(self.0.spec_tiles()[key].spec_surface())
                } else {
                    Some(SurfaceTag::Solid)
                })
            }),
    {
        if position.y > 0 {
            return None;
        }
        match self.0.get_tile_from_point(position) {
            Some(platform) => Some(platform.surface()),
            None => Some(SurfaceTag::Solid),
        }
    }
}

/// The platform on `cell` in a map of tiles, if there is one.
pub open spec fn tile_at(tiles: Map<u64, Platform>, cell: SquareCell) -> Option<Platform> {
    if tiles.contains_key(cell.spec_key()) {
        Some(tiles[cell.spec_key()])
    } else {
        None
    }
}

/// Whether `cell` lies in the box of `cols` columns and `rows` rows that
/// begins at `start`.
pub open spec fn in_box(cell: SquareCell, start: SquareCell, cols: int, rows: int) -> bool {
    0 <= cell.column - start.column < cols && 0 <= cell.row - start.row < rows
}

/// Whether `cell` is among the first `count` cells of the box of `cols`
/// columns that begins at `start`, row by row.
pub open spec fn in_box_so_far(cell: SquareCell, start: SquareCell, cols: int, count: int) -> bool {
    &&& 0 <= cell.column - start.column < cols
    &&& 0 <= cell.row - start.row
    &&& (cell.row - start.row) * cols + (cell.column - start.column) < count
}

/// The cell of the ring round the origin on which the walk over one ring
/// comes at place `place`.
pub open spec fn ring_cell(place: int) -> SquareCell {
    SquareCell::spec_zero().spec_directions()[place].spec_offset_cell()
}

/// Whether `cell` is among the first `count` cells of the ring round the origin.
pub open spec fn in_ring_so_far(cell: SquareCell, count: int) -> bool {
    exists|place: int| 0 <= place < count && cell == #[trigger] ring_cell(place)
}

/// The platform that the layout of the board puts on `cell`, if it puts
/// one there: a box of skate, a box of ice, and ground at the origin and
/// on the ring round it.
pub open spec fn laid_platform(cell: SquareCell) -> Option<Platform> {
    if in_box(cell, SquareCell { column: (-8i32), row: 8 }, 16, 4) {
        Some(Platform::Skate)
    } else if in_box(cell, SquareCell { column: (-8i32), row: (-8i32) }, 16, 4) {
        Some(Platform::Ice)
    } else if cell == SquareCell::spec_zero() || in_ring_so_far(cell, 8) {
        Some(Platform::Ground)
    } else {
        None
    }
}

/// The place of a cell in a box: its column and row within the box.
proof fn lemma_box_place(count: int, cols: int, rows: int)
    requires
        0 <= count < cols * rows,
        cols > 0,
    ensures
        0 <= count % cols < cols,
        0 <= count / cols < rows,
        (count / cols) * cols + count % cols == count,
{
    lemma_fundamental_div_mod(count, cols);
    let row = count / cols;
    assert(cols * row == row * cols) by (nonlinear_arith);
    assert(0 <= row < rows) by (nonlinear_arith)
        requires
            0 <= count < cols * rows,
            cols > 0,
            count == row * cols + count % cols,
            0 <= count % cols < cols,
    ;
}

/// A column and a row within a box give one place in it.
proof fn lemma_box_place_unique(column: int, row: int, cols: int, count: int)
    requires
        0 <= column < cols,
        row * cols + column == count,
    ensures
        column == count % cols,
        row == count / cols,
{
    lemma_fundamental_div_mod_converse(count, cols, row, column);
}

/// The cells of a whole box are those of its first rows.
proof fn lemma_box_full(column: int, row: int, cols: int, rows: int)
    requires
        0 <= column < cols,
        0 <= row,
    ensures
        row * cols + column < cols * rows <==> row < rows,
{
    assert(row * cols + column < cols * rows <==> row < rows) by (nonlinear_arith)
        requires
            0 <= column < cols,
            0 <= row,
    ;
}

impl SquareDirection {
    /// The cell that lies one step in this direction from the origin.
    pub open spec fn spec_offset_cell(self) -> SquareCell {
        SquareCell { column: self.spec_step().x, row: self.spec_step().y }
    }
}

impl Platforms {
    /// Lays `platform` on every cell of the box of `cols` columns and
    /// `rows` rows that begins at `start`, and leaves every other cell as
    /// it is.
    pub fn fill_box(&mut self, start: SquareCell, cols: u32, rows: u32, platform: Platform)
        requires
            old(self).0.wf(),
            cols * rows <= u32::MAX,
            cols <= i32::MAX,
            rows <= i32::MAX,
            start.column + cols <= i32::MAX,
            start.row + rows <= i32::MAX,
        ensures
            final(self).0.wf(),
            final(self).0.spec_cell_size() == old(self).0.spec_cell_size(),
            forall|cell: SquareCell| #[trigger]
                tile_at(final(self).0.spec_tiles(), cell) == (if in_box(
                    cell,
                    start,
                    cols as int,
                    rows as int,
                ) {
                    Some(platform)
                } else {
                    tile_at(old(self).0.spec_tiles(), cell)
                }),
    {
        let mut walk = CellBoxIter::new(start, cols, rows);
        loop
            invariant
                self.0.wf(),
                self.0.spec_cell_size() == old(self).0.spec_cell_size(),
                walk.wf(),
                walk.start == start,
                walk.cols == cols,
                walk.length == cols * rows,
                cols <= i32::MAX,
                rows <= i32::MAX,
                start.column + cols <= i32::MAX,
                start.row + rows <= i32::MAX,
                forall|cell: SquareCell| #[trigger]
                    tile_at(self.0.spec_tiles(), cell) == (if in_box_so_far(
                        cell,
                        start,
                        cols as int,
                        walk.counter as int,
                    ) {
                        Some(platform)
                    } else {
                        tile_at(old(self).0.spec_tiles(), cell)
                    }),
            ensures
                walk.counter == walk.length,
            decreases walk.length - walk.counter,
        {
            proof {
                if walk.counter < walk.length {
                    lemma_box_place(walk.counter as int, cols as int, rows as int);
                    let offset = box_offset(cols, walk.counter);
                    assert(offset.x == (walk.counter as int) % (cols as int));
                    assert(offset.z == (walk.counter as int) / (cols as int));
                }
            }
            let ghost before = self.0.spec_tiles();
            let ghost place = walk.counter as int;
            match walk.next() {
                Some(cell) => {
                    self.0.set_tile(cell, platform);
                    proof {
                        lemma_box_place(place, cols as int, rows as int);
                        assert(cell == start.shifted(place % (cols as int), place / (cols as int)));
                        assert forall|other: SquareCell| #[trigger]
                            tile_at(self.0.spec_tiles(), other) == (if in_box_so_far(
                                other,
                                start,
                                cols as int,
                                place + 1,
                            ) {
                                Some(platform)
                            } else {
                                tile_at(old(self).0.spec_tiles(), other)
                            }) by {
                            let column = other.column - start.column;
                            let row = other.row - start.row;
                            if other.spec_key() == cell.spec_key() {
                                SquareCell::lemma_key_is_unique(other, cell);
                            } else {
                                assert(tile_at(self.0.spec_tiles(), other) == tile_at(before, other));
                                if 0 <= column < cols && row * cols + column == place {
                                    lemma_box_place_unique(column, row, cols as int, place);
                                }
                            }
                        }
                    }
                },
                None => {
                    break ;
                },
            }
        }
        proof {
            assert forall|cell: SquareCell|
                in_box_so_far(cell, start, cols as int, (cols * rows) as int) == in_box(
                    cell,
                    start,
                    cols as int,
                    rows as int,
                ) by {
                let column = cell.column - start.column;
                let row = cell.row - start.row;
                if 0 <= column < cols && 0 <= row {
                    lemma_box_full(column, row, cols as int, rows as int);
                }
            }
        }
    }
}

impl Platforms {
    /// Lays ground on the ring round the origin, and leaves every other
    /// cell as it is.
    fn lay_ground_ring(&mut self)
        requires
            old(self).0.wf(),
        ensures
            final(self).0.wf(),
            final(self).0.spec_cell_size() == old(self).0.spec_cell_size(),
            forall|cell: SquareCell| #[trigger]
                tile_at(final(self).0.spec_tiles(), cell) == (if in_ring_so_far(cell, 8) {
                    Some(Platform::Ground)
                } else {
                    tile_at(old(self).0.spec_tiles(), cell)
                }),
    {
        let mut walk = CellDirectionIter::new(SquareCell::zero(), 1);
        loop
            invariant
                self.0.wf(),
                self.0.spec_cell_size() == old(self).0.spec_cell_size(),
                walk.wf(),
                walk.start == SquareCell::spec_zero(),
                walk.loops == 1,
                walk.round == 1,
                walk.dirs@.len() == 8,
                forall|cell: SquareCell| #[trigger]
                    tile_at(self.0.spec_tiles(), cell) == (if in_ring_so_far(
                        cell,
                        walk.taken as int,
                    ) {
                        Some(Platform::Ground)
                    } else {
                        tile_at(old(self).0.spec_tiles(), cell)
                    }),
            ensures
                walk.taken == 8,
            decreases 8 - walk.taken,
        {
            let ghost before = self.0.spec_tiles();
            let ghost place = walk.taken as int;
            match walk.next() {
                Some(cell) => {
                    self.0.set_tile(cell, Platform::Ground);
                    proof {
                        assert(cell == ring_cell(place));
                        assert forall|other: SquareCell| #[trigger]
                            tile_at(self.0.spec_tiles(), other) == (if in_ring_so_far(
                                other,
                                place + 1,
                            ) {
                                Some(Platform::Ground)
                            } else {
                                tile_at(old(self).0.spec_tiles(), other)
                            }) by {
                            if other.spec_key() == cell.spec_key() {
                                SquareCell::lemma_key_is_unique(other, cell);
                                assert(in_ring_so_far(other, place + 1));
                            } else {
                                assert(tile_at(self.0.spec_tiles(), other) == tile_at(before, other));
                                if in_ring_so_far(other, place) {
                                    let at = choose|at: int|
                                        0 <= at < place && other == #[trigger] ring_cell(at);
                                    assert(0 <= at < place + 1 && other == ring_cell(at));
                                }
                                if in_ring_so_far(other, place + 1) {
                                    let at = choose|at: int|
                                        0 <= at < place + 1 && other == #[trigger] ring_cell(at);
                                    assert(at != place);
                                    assert(0 <= at < place && other == ring_cell(at));
                                }
                            }
                        }
                    }
                },
                None => {
                    break ;
                },
            }
        }
    }
}

/// Lays the platforms of the board out: ground at the origin and on the
/// ring round it, then a box of ice, then a box of skate. Every other
/// cell is left as it is.
pub fn set_platforms(platforms: &mut Platforms)
    requires
        old(platforms).0.wf(),
    ensures
        final(platforms).0.wf(),
        final(platforms).0.spec_cell_size() == old(platforms).0.spec_cell_size(),
        forall|cell: SquareCell| #[trigger]
            tile_at(final(platforms).0.spec_tiles(), cell) == (match laid_platform(cell) {
                Some(platform) => Some(platform),
                None => tile_at(old(platforms).0.spec_tiles(), cell),
            }),
{
    platforms.0.set_tile(SquareCell::zero(), Platform::Ground);
    proof {
        assert forall|cell: SquareCell| #[trigger]
            tile_at(platforms.0.spec_tiles(), cell) == (if cell == SquareCell::spec_zero() {
                Some(Platform::Ground)
            } else {
                tile_at(old(platforms).0.spec_tiles(), cell)
            }) by {
            if cell.spec_key() == SquareCell::spec_zero().spec_key() {
                SquareCell::lemma_key_is_unique(cell, SquareCell::spec_zero());
            }
        }
    }
    platforms.lay_ground_ring();
    platforms.fill_box(SquareCell::new(-8, -8), 16, 4, Platform::Ice);
    platforms.fill_box(SquareCell::new(-8, 8), 16, 4, Platform::Skate);
}

} // verus!
