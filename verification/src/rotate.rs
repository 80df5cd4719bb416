use vstd::prelude::*;

verus! {

/// `<[A]>::rotate_left`, which std documents: the first `mid` elements go to the
/// end of the slice and the others come to the front, each group in its order.
/// It panics where `mid` is more than the length.
pub assume_specification<A>[ <[A]>::rotate_left ](slice: &mut [A], mid: usize)
    requires
        mid <= old(slice)@.len(),
    ensures
        final(slice)@ == old(slice)@.subrange(mid as int, old(slice)@.len() as int) + old(
            slice,
        )@.subrange(0, mid as int),
;

/// `<[A]>::rotate_right`, which std documents: the last `k` elements come to the
/// front of the slice and the others go to the end, each group in its order.
/// It panics where `k` is more than the length.
pub assume_specification<A>[ <[A]>::rotate_right ](slice: &mut [A], k: usize)
    requires
        k <= old(slice)@.len(),
    ensures
        final(slice)@ == old(slice)@.subrange(old(slice)@.len() - k, old(slice)@.len() as int)
            + old(slice)@.subrange(0, old(slice)@.len() - k),
;

} // verus!
