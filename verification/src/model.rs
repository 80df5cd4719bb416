use crate::bounds::Endpoint;
use crate::error::MoveError;
use vstd::prelude::*;

verus! {

/// The half-open chunk `[c0, c1)` that two ends describe: the start must be an
/// included index, the end an excluded index or an included one, which stands
/// for the chunk that stops right after it.
pub open spec fn chunk_of(start: Endpoint, end: Endpoint) -> Result<(int, int), MoveError> {
    match start {
        Endpoint::Included(c0) => match end {
            Endpoint::Excluded(c1) => Ok((c0 as int, c1 as int)),
            Endpoint::Included(last) => Ok((c0 as int, last + 1)),
            Endpoint::Unbounded => Err(MoveError::MissingEndBound),
        },
        _ => Err(MoveError::MissingStartBound),
    }
}

/// The chunk that two ends describe in a sequence of `len` elements, where it
/// lies within the sequence.
pub open spec fn chunk_within(len: nat, start: Endpoint, end: Endpoint) -> Result<
    (int, int),
    MoveError,
> {
    match chunk_of(start, end) {
        Ok((c0, c1)) => if c0 <= c1 <= len {
            Ok((c0, c1))
        } else {
            Err(MoveError::InvalidChunk)
        },
        Err(e) => Err(e),
    }
}

/// `i` as an index, or the largest index where it is larger than that.
pub open spec fn capped(i: int) -> usize {
    if i > usize::MAX {
        usize::MAX
    } else {
        i as usize
    }
}

/// Whether the move is made, and if not, why: the ends are looked at first, then
/// the chunk, then the place where it would end.
pub open spec fn move_outcome(len: nat, start: Endpoint, end: Endpoint, destination: usize) -> Result<
    (),
    MoveError,
> {
    match chunk_within(len, start, end) {
        Ok((c0, c1)) => if destination + (c1 - c0) <= len {
            Ok(())
        } else {
            Err(
                MoveError::OutOfBounds {
                    len: len as usize,
                    destination,
                    end: capped(destination + (c1 - c0)),
                },
            )
        },
        Err(e) => Err(e),
    }
}

/// `s` without the chunk `[c0, c1)`.
pub open spec fn without_chunk<T>(s: Seq<T>, c0: int, c1: int) -> Seq<T> {
    s.subrange(0, c0) + s.subrange(c1, s.len() as int)
}

/// `s` with the chunk `[c0, c1)` taken out and put back so that it starts at
/// `destination`.
pub open spec fn moved<T>(s: Seq<T>, c0: int, c1: int, destination: int) -> Seq<T>
    recommends
        0 <= c0 <= c1 <= s.len(),
        0 <= destination <= s.len() - (c1 - c0),
{
    let rest = without_chunk(s, c0, c1);
    rest.subrange(0, destination) + s.subrange(c0, c1) + rest.subrange(
        destination,
        rest.len() as int,
    )
}

/// The index at which the element of index `i` stands once the chunk
/// `[c0, c1)` has moved to `destination`: the chunk's elements follow the chunk,
/// those between its old place and its new one step over it, by its length,
/// and all others stay.
pub open spec fn position_after(i: int, c0: int, c1: int, destination: int) -> int {
    if c0 <= i < c1 {
        destination + (i - c0)
    } else if c1 <= i < destination + (c1 - c0) {
        i - (c1 - c0)
    } else if destination <= i < c0 {
        i + (c1 - c0)
    } else {
        i
    }
}

/// The sequence after a request to move: the chunk moved where the request is
/// granted, `s` itself where it is refused.
pub open spec fn after_move<T>(s: Seq<T>, start: Endpoint, end: Endpoint, destination: usize) -> Seq<
    T,
> {
    match (move_outcome(s.len(), start, end, destination), chunk_of(start, end)) {
        (Ok(_), Ok((c0, c1))) => moved(s, c0, c1, destination as int),
        _ => s,
    }
}

} // verus!
