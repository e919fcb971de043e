//! Grids of cells.

pub mod cell;
pub mod index;
pub mod infinite;
pub mod iter;
pub mod square_cell;
pub mod tile;

pub use cell::{CellDirection, GridCell};
pub use infinite::GridInfinite;
pub use iter::{CellBoxIter, CellDirectionIter};
pub use square_cell::{SquareCell, SquareDirection};
pub use tile::{Grid, GridTile};
