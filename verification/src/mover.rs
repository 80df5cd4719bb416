use crate::bounds::{ChunkBounds, Endpoint};
use crate::error::MoveError;
use crate::laws::lemma_moved_is_permutation;
use crate::model::{after_move, chunk_within, move_outcome, moved};
use vstd::prelude::*;

verus! {

/// Finds the chunk that two ends describe in a sequence of `len` elements.
pub fn locate_chunk(len: usize, start: Endpoint, end: Endpoint) -> (found: Result<
    (usize, usize),
    MoveError,
>)
    ensures
        match chunk_within(len as nat, start, end) {
            Ok((c0, c1)) => found == Ok::<(usize, usize), MoveError>((c0 as usize, c1 as usize))
                && c0 <= c1 <= len,
            Err(e) => found == Err::<(usize, usize), MoveError>(e),
        },
{
    let c0: usize = match start {
        Endpoint::Included(first) => first,
        _ => {
            return Err(MoveError::MissingStartBound);
        },
    };
    let c1: usize = match end {
        Endpoint::Excluded(stop) => stop,
        Endpoint::Included(last) => {
            if last >= len {
                return Err(MoveError::InvalidChunk);
            }
            last + 1
        },
        Endpoint::Unbounded => {
            return Err(MoveError::MissingEndBound);
        },
    };
    if c0 <= c1 && c1 <= len {
        Ok((c0, c1))
    } else {
        Err(MoveError::InvalidChunk)
    }
}

/// Moves the chunk `[c0, c1)` so that it starts at `destination`, by one
/// rotation of the elements between the chunk's old place and its new one.
pub fn move_chunk<T>(slice: &mut [T], c0: usize, c1: usize, destination: usize)
    requires
        c0 <= c1 <= old(slice)@.len(),
        destination + (c1 - c0) <= old(slice)@.len(),
    ensures
        final(slice)@ == moved(old(slice)@, c0 as int, c1 as int, destination as int),
        final(slice)@.len() == old(slice)@.len(),
        final(slice)@.to_multiset() == old(slice)@.to_multiset(),
{
    let size: usize = c1 - c0;
    proof {
        assert(slice@.len() == slice.len());
        lemma_moved_is_permutation(slice@, c0 as int, c1 as int, destination as int);
    }
    if destination > c0 {
        let (_, tail) = slice.split_at_mut(c0);
        let (span, _) = tail.split_at_mut(destination - c0 + size);
        span.rotate_left(size);
    } else if destination < c0 {
        let (_, tail) = slice.split_at_mut(destination);
        let (span, _) = tail.split_at_mut(c1 - destination);
        span.rotate_right(size);
    } else {
        assert(slice@ =~= moved(slice@, c0 as int, c1 as int, destination as int));
    }
}

/// Moves the chunk between `start` and `end` so that it starts at
/// `destination`, or says why it cannot and leaves the slice as it was.
pub fn try_move_chunk<T>(
    slice: &mut [T],
    start: Endpoint,
    end: Endpoint,
    destination: usize,
) -> (outcome: Result<(), MoveError>)
    ensures
        outcome == move_outcome(old(slice)@.len(), start, end, destination),
        final(slice)@ == after_move(old(slice)@, start, end, destination),
        final(slice)@.len() == old(slice)@.len(),
        final(slice)@.to_multiset() == old(slice)@.to_multiset(),
{
    let len: usize = slice.len();
    let (c0, c1) = match locate_chunk(len, start, end) {
        Ok(chunk) => chunk,
        Err(e) => {
            return Err(e);
        },
    };
    let size: usize = c1 - c0;
    if destination > len - size {
        return Err(
            MoveError::OutOfBounds { len, destination, end: destination.saturating_add(size) },
        );
    }
    move_chunk(slice, c0, c1, destination);
    Ok(())
}

/// Sequences in which a chunk can be moved to another place.
pub trait Moveslice<T, R: ChunkBounds>: View<V = Seq<T>> {
    /// Moves the chunk that `bounds` describes so that it starts at
    /// `destination`. For callers that know the move to be possible.
    fn moveslice(&mut self, bounds: R, destination: usize)
        requires
            move_outcome(
                old(self)@.len(),
                bounds.start_spec(),
                bounds.end_spec(),
                destination,
            ) is Ok,
        ensures
            final(self)@ == after_move(
                old(self)@,
                bounds.start_spec(),
                bounds.end_spec(),
                destination,
            ),
            final(self)@.len() == old(self)@.len(),
            final(self)@.to_multiset() == old(self)@.to_multiset(),
    ;

    /// Moves the chunk that `bounds` describes so that it starts at
    /// `destination`, or says why it cannot and leaves the sequence as it was.
    fn try_moveslice(&mut self, bounds: R, destination: usize) -> (outcome: Result<(), MoveError>)
        ensures
            outcome == move_outcome(
                old(self)@.len(),
                bounds.start_spec(),
                bounds.end_spec(),
                destination,
            ),
            final(self)@ == after_move(
                old(self)@,
                bounds.start_spec(),
                bounds.end_spec(),
                destination,
            ),
            final(self)@.len() == old(self)@.len(),
            final(self)@.to_multiset() == old(self)@.to_multiset(),
    ;
}

impl<T, R: ChunkBounds> Moveslice<T, R> for [T] {
    fn moveslice(&mut self, bounds: R, destination: usize) {
        let len: usize = self.len();
        if let Ok((c0, c1)) = locate_chunk(len, bounds.start_point(), bounds.end_point()) {
            move_chunk(self, c0, c1, destination);
        }
    }

    fn try_moveslice(&mut self, bounds: R, destination: usize) -> (outcome: Result<(), MoveError>) {
        try_move_chunk(self, bounds.start_point(), bounds.end_point(), destination)
    }
}

impl<T, R: ChunkBounds> Moveslice<T, R> for Vec<T> {
    fn moveslice(&mut self, bounds: R, destination: usize) {
        let len: usize = self.len();
        if let Ok((c0, c1)) = locate_chunk(len, bounds.start_point(), bounds.end_point()) {
            move_chunk(self.as_mut_slice(), c0, c1, destination);
        }
    }

    fn try_moveslice(&mut self, bounds: R, destination: usize) -> (outcome: Result<(), MoveError>) {
        try_move_chunk(self.as_mut_slice(), bounds.start_point(), bounds.end_point(), destination)
    }
}

} // verus!
