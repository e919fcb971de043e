//! A grid without bounds, which holds the tiles that were put on it.

use vstd::prelude::*;
use crate::grid::cell::GridCell;
use crate::grid::index::{index_places, TileIndex};
use crate::grid::tile::{Grid, GridTile};
use crate::math::Vec3;

verus! {

/// A grid without bounds.
///
/// The tiles lie in a list, in the order in which their cells first got
/// one; an index gives the place of each tile by the key of its cell.
pub struct GridInfinite<C: GridCell, T: GridTile<C>> {
    index: TileIndex,
    tiles: Vec<T>,
    cells: Vec<C>,
    cell_size: i64,
}

impl<C: GridCell, T: GridTile<C>> GridInfinite<C, T> {
    /// The cells that hold a tile, in the order in which each first got one.
    pub closed spec fn spec_cells(&self) -> Seq<C> {
        self.cells@
    }

    /// The empty grid of cells of side `cell_size`.
    pub fn new(cell_size: i64) -> (r: Self)
        ensures
            r.wf(),
            r.spec_tiles() == (Map::<u64, T>::empty()),
            r.spec_cells() == Seq::<C>::empty(),
            r.spec_cell_size() == cell_size,
    {
        let r = Self { index: TileIndex::new(), tiles: Vec::new(), cells: Vec::new(), cell_size };
        assert(r.spec_tiles() =~= Map::<u64, T>::empty());
        r
    }

    /// The tile on the cell that holds `point`, if there is one.
    pub fn get_tile_from_point(&self, point: Vec3) -> (r: Option<&T>)
        requires
            self.wf(),
        ensures
            ({
                let key = C::spec_from_point(point, self.spec_cell_size()).spec_key();
                r == (if self.spec_tiles().contains_key(key) {
                    Some(&self.spec_tiles()[key])
                } else {
                    None
                })
            }),
    {
        self.get_tile(self.get_cell(point))
    }

    /// The cells that hold a tile, each with its tile, in the order in
    /// which each first got one.
    pub fn iter(&self) -> (r: Vec<(C, &T)>)
        requires
            self.wf(),
        ensures
            r@.len() == self.spec_cells().len(),
            forall|i: int|
                0 <= i < r@.len() ==> {
                    &&& (#[trigger] r@[i]).0 == self.spec_cells()[i]
                    &&& self.spec_tiles().contains_key(self.spec_cells()[i].spec_key())
                    &&& *r@[i].1 == self.spec_tiles()[self.spec_cells()[i].spec_key()]
                },
    {
        let mut pairs: Vec<(C, &T)> = Vec::new();
        let mut i: usize = 0;
        while i < self.cells.len()
            invariant
                self.wf(),
                i <= self.cells@.len(),
                pairs@.len() == i,
                forall|j: int|
                    0 <= j < i ==> {
                        &&& (#[trigger] pairs@[j]).0 == self.cells@[j]
                        &&& *pairs@[j].1 == self.tiles@[j]
                    },
            decreases self.cells@.len() - i,
        {
            pairs.push((self.cells[i], &self.tiles[i]));
            i += 1;
        }
        pairs
    }

    /// Every cell in the list of cells holds a tile, no cell is listed
    /// twice, and every tile lies on a listed cell.
    pub proof fn lemma_cells_hold_the_tiles(&self)
        requires
            self.wf(),
        ensures
            forall|i: int|
                0 <= i < self.spec_cells().len() ==> self.spec_tiles().contains_key(
                    (#[trigger] self.spec_cells()[i]).spec_key(),
                ),
            forall|i: int, j: int|
                0 <= i < j < self.spec_cells().len() ==> (#[trigger] self.spec_cells()[i])
                    != (#[trigger] self.spec_cells()[j]),
            forall|key: u64| #[trigger]
                self.spec_tiles().contains_key(key) ==> exists|i: int|
                    0 <= i < self.spec_cells().len() && (#[trigger] self.spec_cells()[i]).spec_key()
                        == key,
    {
        assert forall|key: u64| #[trigger] self.spec_tiles().contains_key(key) implies exists|
            i: int,
        |
            0 <= i < self.spec_cells().len() && (#[trigger] self.spec_cells()[i]).spec_key()
                == key by {
            let place = index_places(self.index)[key] as int;
            assert(self.spec_cells()[place].spec_key() == key);
        }
    }
}

impl<C: GridCell, T: GridTile<C>> Grid<C, T> for GridInfinite<C, T> {
    closed spec fn wf(&self) -> bool {
        let places = index_places(self.index);
        &&& self.cells@.len() == self.tiles@.len()
        &&& forall|key: u64| #[trigger]
            places.contains_key(key) ==> places[key] < self.tiles@.len()
                && self.cells@[places[key] as int].spec_key() == key
        &&& forall|i: int|
            0 <= i < self.cells@.len() ==> places.contains_key(
                (#[trigger] self.cells@[i]).spec_key(),
            ) && places[self.cells@[i].spec_key()] == i
    }

    closed spec fn spec_tiles(&self) -> Map<u64, T> {
        Map::new(
            |key: u64| index_places(self.index).contains_key(key),
            |key: u64| self.tiles@[index_places(self.index)[key] as int],
        )
    }

    closed spec fn spec_cell_size(&self) -> i64 {
        self.cell_size
    }

    fn get_cell(&self, point: Vec3) -> (r: C) {
        C::from_point(point, self.cell_size)
    }

    fn get_point(&self, cell: C) -> (r: Vec3) {
        cell.as_point(self.cell_size)
    }

    fn get_tile(&self, cell: C) -> (r: Option<&T>) {
        match self.index.get(cell.key()) {
            Some(place) => Some(&self.tiles[place]),
            None => None,
        }
    }

    fn set_tile(&mut self, cell: C, tile: T) -> (r: Option<T>)
        ensures
            final(self).spec_cells() == (if old(self).spec_tiles().contains_key(cell.spec_key()) {
                old(self).spec_cells()
            } else {
                old(self).spec_cells().push(cell)
            }),
    {
        let key: u64 = cell.key();
        match self.index.get(key) {
            Some(place) => {
                self.tiles.push(tile);
                let before = self.tiles.swap_remove(place);
                assert(self.tiles@ =~= old(self).tiles@.update(place as int, tile));
                assert(self.spec_tiles() =~= old(self).spec_tiles().insert(key, tile));
                Some(before)
            },
            None => {
                let place: usize = self.tiles.len();
                self.tiles.push(tile);
                self.cells.push(cell);
                self.index.insert(key, place);
                assert forall|other: u64| #[trigger]
                    index_places(self.index).contains_key(other) implies index_places(
                    self.index,
                )[other] < self.tiles@.len() && self.cells@[index_places(self.index)[other] as int].spec_key()
                    == other by {
                    if other != key {
                        assert(index_places(old(self).index).contains_key(other));
                    }
                }
                assert forall|i: int| 0 <= i < self.cells@.len() implies index_places(
                    self.index,
                ).contains_key((#[trigger] self.cells@[i]).spec_key()) && index_places(
                    self.index,
                )[self.cells@[i].spec_key()] == i by {
                    if i < place {
                        assert(self.cells@[i] == old(self).cells@[i]);
                        assert(index_places(old(self).index).contains_key(
                            old(self).cells@[i].spec_key(),
                        ));
                    }
                }
                assert(self.spec_tiles() =~= old(self).spec_tiles().insert(key, tile));
                None
            },
        }
    }
}

} // verus!
