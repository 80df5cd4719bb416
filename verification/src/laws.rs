use crate::bounds::Endpoint;
use crate::error::MoveError;
use crate::model::{
    after_move, capped, chunk_of, chunk_within, move_outcome, moved, position_after,
    without_chunk,
};
use vstd::prelude::*;
use vstd::seq_lib::lemma_multiset_commutative;

verus! {

/// A sequence cut in three and put together again holds what it held.
proof fn lemma_three_parts<T>(s: Seq<T>, i: int, j: int)
    requires
        0 <= i <= j <= s.len(),
    ensures
        s.to_multiset() == s.subrange(0, i).to_multiset().add(s.subrange(i, j).to_multiset()).add(
            s.subrange(j, s.len() as int).to_multiset(),
        ),
{
    let a = s.subrange(0, i);
    let b = s.subrange(i, j);
    let c = s.subrange(j, s.len() as int);
    assert(s =~= (a + b) + c);
    lemma_multiset_commutative(a, b);
    lemma_multiset_commutative(a + b, c);
}

/// Moving a chunk within its sequence only permutes the elements.
pub proof fn lemma_moved_is_permutation<T>(s: Seq<T>, c0: int, c1: int, destination: int)
    requires
        0 <= c0 <= c1 <= s.len(),
        0 <= destination <= s.len() - (c1 - c0),
    ensures
        moved(s, c0, c1, destination).len() == s.len(),
        moved(s, c0, c1, destination).to_multiset() == s.to_multiset(),
{
    let chunk = s.subrange(c0, c1);
    let rest = without_chunk(s, c0, c1);
    let head = rest.subrange(0, destination);
    let tail = rest.subrange(destination, rest.len() as int);
    let m = moved(s, c0, c1, destination);
    lemma_three_parts(s, c0, c1);
    lemma_multiset_commutative(s.subrange(0, c0), s.subrange(c1, s.len() as int));
    assert(rest =~= head + tail);
    lemma_multiset_commutative(head, tail);
    lemma_multiset_commutative(head, chunk);
    lemma_multiset_commutative(head + chunk, tail);
    assert(m.to_multiset() =~= rest.to_multiset().add(chunk.to_multiset()));
    assert(s.to_multiset() =~= rest.to_multiset().add(chunk.to_multiset()));
}

/// Taking the moved chunk out again leaves what was left when it was first
/// taken out, and the chunk itself stands at its destination.
pub proof fn lemma_moved_parts<T>(s: Seq<T>, c0: int, c1: int, destination: int)
    requires
        0 <= c0 <= c1 <= s.len(),
        0 <= destination <= s.len() - (c1 - c0),
    ensures
        moved(s, c0, c1, destination).subrange(destination, destination + (c1 - c0))
            == s.subrange(c0, c1),
        without_chunk(moved(s, c0, c1, destination), destination, destination + (c1 - c0))
            == without_chunk(s, c0, c1),
{
    let m = moved(s, c0, c1, destination);
    assert(m.subrange(destination, destination + (c1 - c0)) =~= s.subrange(c0, c1));
    assert(without_chunk(m, destination, destination + (c1 - c0)) =~= without_chunk(s, c0, c1));
}

/// Every element is found again after a move: those of the chunk from the
/// destination on, those that the chunk passed a chunk's length nearer to its
/// old place, and all others where they were.
pub proof fn law_every_element_placed<T>(s: Seq<T>, c0: int, c1: int, destination: int)
    requires
        0 <= c0 <= c1 <= s.len(),
        0 <= destination <= s.len() - (c1 - c0),
    ensures
        forall|i: int|
            0 <= i < s.len() ==> {
                &&& 0 <= position_after(i, c0, c1, destination) < s.len()
                &&& moved(s, c0, c1, destination)[position_after(i, c0, c1, destination)]
                    == #[trigger] s[i]
            },
{
}

/// A chunk moved to the index at which it starts stays where it is: the
/// sequence is unchanged, whatever the chunk, and a chunk that lies within the
/// sequence is not refused.
pub proof fn law_move_to_own_start<T>(s: Seq<T>, c0: usize, end: Endpoint)
    ensures
        after_move(s, Endpoint::Included(c0), end, c0) == s,
        chunk_within(s.len(), Endpoint::Included(c0), end) is Ok ==> move_outcome(
            s.len(),
            Endpoint::Included(c0),
            end,
            c0,
        ) is Ok,
{
    if move_outcome(s.len(), Endpoint::Included(c0), end, c0) is Ok {
        let (a, b) = chunk_of(Endpoint::Included(c0), end)->Ok_0;
        assert(moved(s, a, b, c0 as int) =~= s);
    }
}

/// A request to move never changes which elements the sequence holds, nor how
/// many of each: it permutes them or leaves them alone.
pub proof fn law_elements_kept<T>(s: Seq<T>, start: Endpoint, end: Endpoint, destination: usize)
    ensures
        after_move(s, start, end, destination).len() == s.len(),
        after_move(s, start, end, destination).to_multiset() == s.to_multiset(),
{
    if move_outcome(s.len(), start, end, destination) is Ok {
        let (c0, c1) = chunk_of(start, end)->Ok_0;
        lemma_moved_is_permutation(s, c0, c1, destination as int);
    }
}

/// After a move the elements of the chunk stand from the destination on, in the
/// order they had, and the other elements keep their order around them.
pub proof fn law_chunk_stays_together<T>(
    s: Seq<T>,
    start: Endpoint,
    end: Endpoint,
    destination: usize,
)
    requires
        move_outcome(s.len(), start, end, destination) is Ok,
    ensures
        chunk_of(start, end) is Ok,
        ({
            let (c0, c1) = chunk_of(start, end)->Ok_0;
            let after = after_move(s, start, end, destination);
            &&& after.subrange(destination as int, destination + (c1 - c0)) == s.subrange(c0, c1)
            &&& without_chunk(after, destination as int, destination + (c1 - c0))
                == without_chunk(s, c0, c1)
        }),
{
    let (c0, c1) = chunk_of(start, end)->Ok_0;
    lemma_moved_parts(s, c0, c1, destination as int);
}

/// A chunk that lies within the sequence, sent to a destination from which it
/// would reach past the end, is refused as out of bounds, and the sequence is
/// unchanged.
pub proof fn law_out_of_bounds_refused<T>(
    s: Seq<T>,
    start: Endpoint,
    end: Endpoint,
    destination: usize,
)
    requires
        chunk_within(s.len(), start, end) is Ok,
        destination + (chunk_of(start, end)->Ok_0.1 - chunk_of(start, end)->Ok_0.0) > s.len(),
    ensures
        move_outcome(s.len(), start, end, destination) == Err::<(), MoveError>(
            MoveError::OutOfBounds {
                len: s.len() as usize,
                destination,
                end: capped(
                    destination + (chunk_of(start, end)->Ok_0.1 - chunk_of(start, end)->Ok_0.0),
                ),
            },
        ),
        after_move(s, start, end, destination) == s,
{
}

/// A chunk whose start is not an included index is refused for its missing
/// start, and one with such a start and no end for its missing end; the
/// sequence is unchanged.
pub proof fn law_missing_bound_refused<T>(
    s: Seq<T>,
    start: Endpoint,
    end: Endpoint,
    destination: usize,
)
    ensures
        !(start is Included) ==> move_outcome(s.len(), start, end, destination) == Err::<
            (),
            MoveError,
        >(MoveError::MissingStartBound),
        start is Included && end is Unbounded ==> move_outcome(s.len(), start, end, destination)
            == Err::<(), MoveError>(MoveError::MissingEndBound),
        !(start is Included) || end is Unbounded ==> after_move(s, start, end, destination) == s,
{
}

/// A chunk of `size` elements moved from `a` to `b` and then from `b` back to
/// `a` leaves the sequence as it was, wherever both places lie within it. The
/// sequence is one that a slice can hold.
pub proof fn law_round_trip<T>(s: Seq<T>, a: usize, b: usize, size: usize)
    requires
        s.len() <= usize::MAX,
        a + size <= s.len(),
        b + size <= s.len(),
    ensures
        ({
            let there = after_move(
                s,
                Endpoint::Included(a),
                Endpoint::Excluded((a + size) as usize),
                b,
            );
            after_move(there, Endpoint::Included(b), Endpoint::Excluded((b + size) as usize), a)
        }) == s,
{
    let there = moved(s, a as int, a + size, b as int);
    assert(there == after_move(
        s,
        Endpoint::Included(a),
        Endpoint::Excluded((a + size) as usize),
        b,
    ));
    lemma_moved_is_permutation(s, a as int, a + size, b as int);
    lemma_moved_parts(s, a as int, a + size, b as int);
    let back = moved(there, b as int, b + size, a as int);
    assert(back == after_move(
        there,
        Endpoint::Included(b),
        Endpoint::Excluded((b + size) as usize),
        a,
    ));
    assert(back =~= s);
}

} // verus!
