//! Walking over the cells of a box, and over the rings round a cell.

use vstd::prelude::*;
use vstd::std_specs::ops::AddSpec;
use crate::grid::cell::{CellDirection, GridCell};
use crate::math::IVec3;

verus! {

/// The cells of a box, row by row.
pub struct CellBoxIter<C: GridCell> {
    /// The first cell of the box.
    pub start: C,
    /// The number of columns.
    pub cols: u32,
    /// The number of cells.
    pub length: u32,
    /// The number of cells handed out.
    pub counter: u32,
}

/// The way from the first cell of a box of `cols` columns to its cell at place `counter`.
pub open spec fn box_offset(cols: u32, counter: u32) -> IVec3 {
    IVec3 { x: (counter % cols) as i32, y: 0, z: (counter / cols) as i32 }
}

impl<C: GridCell> CellBoxIter<C> {
    /// Whether the walk is sound: a box with cells has columns.
    pub open spec fn wf(&self) -> bool {
        self.counter <= self.length && (self.length > 0 ==> self.cols > 0)
    }

    /// Whether the next cell exists.
    pub open spec fn can_step(&self) -> bool {
        self.counter < self.length ==> self.start.add_req(box_offset(self.cols, self.counter))
    }

    /// The walk over the box of `cols` columns and `rows` rows that begins at `start`.
    pub fn new(start: C, cols: u32, rows: u32) -> (r: Self)
        requires
            cols * rows <= u32::MAX,
        ensures
            r.wf(),
            r.start == start,
            r.cols == cols,
            r.length == cols * rows,
            r.counter == 0,
    {
        assert(cols == 0 ==> cols * rows == 0) by (nonlinear_arith);
        Self { start, cols, length: cols * rows, counter: 0 }
    }

    /// The next cell of the box, or `None` at its end.
    pub fn next(&mut self) -> (r: Option<C>)
        requires
            old(self).wf(),
            old(self).can_step(),
        ensures
            final(self).wf(),
            final(self).start == old(self).start,
            final(self).cols == old(self).cols,
            final(self).length == old(self).length,
            old(self).counter == old(self).length ==> r.is_none() && final(self).counter == old(
                self,
            ).counter,
            old(self).counter < old(self).length ==> final(self).counter == old(self).counter + 1
                && r.is_some() && (<C as AddSpec<IVec3>>::obeys_add_spec() ==> r == Some(
                old(self).start.add_spec(box_offset(old(self).cols, old(self).counter)),
            )),
    {
        if self.counter == self.length {
            return None;
        }
        let col: u32 = self.counter % self.cols;
        let row: u32 = self.counter / self.cols;
        let cell = self.start + IVec3::new(
            #[verifier::truncate]
            (col as i32),
            0,
            #[verifier::truncate]
            (row as i32),
        );
        self.counter += 1;
        Some(cell)
    }
}

/// The cells on the rings round a cell: ring by ring, and on each ring
/// one cell for each direction.
pub struct CellDirectionIter<C: GridCell> {
    /// The cell in the middle.
    pub start: C,
    /// The number of rings.
    pub loops: i32,
    /// The ring that is walked.
    pub round: i32,
    /// The directions of the grid.
    pub dirs: Vec<C::Direction>,
    /// The number of directions handed out on this ring.
    pub taken: usize,
}

impl<C: GridCell> CellDirectionIter<C> {
    /// Whether the walk is sound.
    pub open spec fn wf(&self) -> bool {
        self.taken <= self.dirs@.len() && self.dirs@ == self.start.spec_directions()
    }

    /// Whether the cell in `direction` on ring `round` exists.
    pub open spec fn reaches(&self, direction: C::Direction, round: i32) -> bool {
        &&& direction.spec_offset().can_scale(round)
        &&& self.start.add_req(direction.spec_offset().spec_times(round))
    }

    /// The cell in `direction` on ring `round`.
    pub open spec fn cell_at(&self, direction: C::Direction, round: i32) -> C {
        self.start.add_spec(direction.spec_offset().spec_times(round))
    }

    /// Whether the walk goes on to a further ring.
    pub open spec fn turns(&self) -> bool {
        self.taken == self.dirs@.len() && self.round < self.loops && self.dirs@.len() > 0
    }

    /// Whether the next cell exists.
    pub open spec fn can_step(&self) -> bool {
        &&& self.taken < self.dirs@.len() ==> self.reaches(self.dirs@[self.taken as int], self.round)
        &&& self.turns() ==> self.reaches(self.dirs@[0], (self.round + 1) as i32)
    }

    /// The walk over `loops` rings round `start`. The first ring is walked
    /// whatever `loops` is.
    pub fn new(start: C, loops: i32) -> (r: Self)
        ensures
            r.wf(),
            r.start == start,
            r.loops == loops,
            r.round == 1,
            r.taken == 0,
    {
        Self { start, loops, round: 1, dirs: start.directions(), taken: 0 }
    }

    /// The next cell, or `None` at the end of the last ring.
    pub fn next(&mut self) -> (r: Option<C>)
        requires
            old(self).wf(),
            old(self).can_step(),
        ensures
            final(self).wf(),
            final(self).start == old(self).start,
            final(self).loops == old(self).loops,
            old(self).taken < old(self).dirs@.len() ==> {
                &&& final(self).round == old(self).round
                &&& final(self).taken == old(self).taken + 1
                &&& r.is_some()
                &&& <C as AddSpec<IVec3>>::obeys_add_spec() ==> r == Some(
                    old(self).cell_at(old(self).dirs@[old(self).taken as int], old(self).round),
                )
            },
            old(self).turns() ==> {
                &&& final(self).round == old(self).round + 1
                &&& final(self).taken == 1
                &&& r.is_some()
                &&& <C as AddSpec<IVec3>>::obeys_add_spec() ==> r == Some(
                    old(self).cell_at(old(self).dirs@[0], (old(self).round + 1) as i32),
                )
            },
            old(self).taken == old(self).dirs@.len() && !old(self).turns() ==> {
                &&& r.is_none()
                &&& final(self).round == old(self).round
                &&& final(self).taken == old(self).taken
            },
    {
        if self.taken == self.dirs.len() {
            if self.round >= self.loops || self.dirs.len() == 0 {
                return None;
            }
            self.round += 1;
            self.taken = 0;
        }
        let dir = self.dirs[self.taken];
        self.taken += 1;
        Some(self.start + dir.offset().times(self.round))
    }
}

} // verus!
