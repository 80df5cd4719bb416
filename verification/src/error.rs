use vstd::prelude::*;

verus! {

/// Why a move was refused. A refused move leaves the sequence as it was.
#[derive(Debug, Clone, Copy, PartialEq, Eq, Structural)]
pub enum MoveError {
    /// The chunk does not say at which index it starts.
    MissingStartBound,
    /// The chunk does not say where it ends.
    MissingEndBound,
    /// The chunk starts after its end, or ends after the end of the sequence.
    InvalidChunk,
    /// Moved to `destination`, the chunk would end at `end`, past the `len`
    /// elements of the sequence. `end` stops at `usize::MAX`.
    OutOfBounds { len: usize, destination: usize, end: usize },
}

} // verus!
