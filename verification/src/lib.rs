//! Moves a contiguous chunk of a slice to another position of the same slice,
//! in place. The chunk keeps its inner order, and so do the elements around it.
//!
//! ```text
//! let mut arr = [1, 2, 3, 4, 5, 6, 7, 8, 9];
//! arr.try_moveslice(3..6, 1);       // [1, 4, 5, 6, 2, 3, 7, 8, 9]
//! ```
//!
//! The destination is the index at which the first element of the chunk stands
//! after the move, so for a slice of ten elements and a chunk of three its
//! largest value is seven.
pub mod bounds;
pub mod error;
pub mod laws;
pub mod model;
pub mod mover;
pub mod rotate;

pub use bounds::{ChunkBounds, Endpoint};
pub use error::MoveError;
pub use mover::Moveslice;
