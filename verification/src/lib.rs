//! A bounded rectangular grid of ordered cells, addressed by small signed
//! coordinates, together with a threshold-based walkability view for search
//! algorithms built on top of it.
//!
//! - `point`: coordinates, the four unit steps, the Manhattan distance.
//! - `cell`: the five cell values and their total order.
//! - `addressing`: the formula from a column and a row to a storage slot.
//! - `grid`: the grid itself, with its bounds tests and its enumeration.
//! - `walkable`: a grid wrapped with a threshold that tells which cells a
//!   search may step onto.

pub mod addressing;
pub mod cell;
pub mod grid;
pub mod point;
pub mod walkable;

pub use cell::Cell;
pub use grid::Grid;
pub use point::{get_distance, Point};
pub use walkable::WalkableGrid;
