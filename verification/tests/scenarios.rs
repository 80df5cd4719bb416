use moveslice::{MoveError, Moveslice};

#[test]
fn chunk_moves_towards_the_front() {
    let mut arr = [1, 2, 3, 4, 5, 6, 7, 8, 9];
    arr.moveslice(3..6, 1);
    assert_eq!(arr, [1, 4, 5, 6, 2, 3, 7, 8, 9]);
}

#[test]
fn chunk_moves_towards_the_back() {
    let mut arr = [1, 2, 3, 4, 5, 6, 7, 8, 9];
    arr.moveslice(3..6, 1);
    arr.moveslice(3..6, 6);
    assert_eq!(arr, [1, 4, 5, 7, 8, 9, 6, 2, 3]);
}

#[test]
fn chunk_that_would_pass_the_end_is_refused() {
    let mut arr = [1, 2, 3, 4, 5, 6, 7, 8, 9];
    let outcome = arr.try_moveslice(3..6, 7);
    assert_eq!(outcome, Err(MoveError::OutOfBounds { len: 9, destination: 7, end: 10 }));
    assert_eq!(arr, [1, 2, 3, 4, 5, 6, 7, 8, 9]);
}

#[test]
fn chunk_sent_to_its_own_start_stays() {
    let mut arr = [1, 2, 3, 4, 5, 6, 7, 8, 9];
    arr.moveslice(0..3, 0);
    assert_eq!(arr, [1, 2, 3, 4, 5, 6, 7, 8, 9]);
    assert_eq!(arr.try_moveslice(0..3, 0), Ok(()));
    assert_eq!(arr, [1, 2, 3, 4, 5, 6, 7, 8, 9]);
}

#[test]
fn try_variant_makes_the_same_moves() {
    let mut arr = [1, 2, 3, 4, 5, 6, 7, 8, 9];
    assert_eq!(arr.try_moveslice(3..6, 1), Ok(()));
    assert_eq!(arr, [1, 4, 5, 6, 2, 3, 7, 8, 9]);
    assert_eq!(arr.try_moveslice(3..6, 6), Ok(()));
    assert_eq!(arr, [1, 4, 5, 7, 8, 9, 6, 2, 3]);
}

#[test]
fn right_move_by_one_place() {
    let mut arr = [1, 2, 3, 4, 5, 6, 7, 8, 9];
    assert_eq!(arr.try_moveslice(3..6, 4), Ok(()));
    assert_eq!(arr, [1, 2, 3, 7, 4, 5, 6, 8, 9]);
}

#[test]
fn left_move_by_one_place() {
    let mut arr = [1, 2, 3, 4, 5, 6, 7, 8, 9];
    assert_eq!(arr.try_moveslice(3..6, 2), Ok(()));
    assert_eq!(arr, [1, 2, 4, 5, 6, 3, 7, 8, 9]);
}

#[test]
fn chunk_moves_to_the_very_end() {
    let mut arr = [1, 2, 3, 4, 5, 6, 7, 8, 9];
    assert_eq!(arr.try_moveslice(0..2, 7), Ok(()));
    assert_eq!(arr, [3, 4, 5, 6, 7, 8, 9, 1, 2]);
}

#[test]
fn chunk_moves_to_the_very_front() {
    let mut arr = [1, 2, 3, 4, 5, 6, 7, 8, 9];
    assert_eq!(arr.try_moveslice(7..9, 0), Ok(()));
    assert_eq!(arr, [8, 9, 1, 2, 3, 4, 5, 6, 7]);
}

#[test]
fn largest_destination_is_length_less_chunk() {
    let mut arr = [0, 1, 2, 3, 4, 5, 6, 7, 8, 9];
    assert_eq!(arr.try_moveslice(0..3, 7), Ok(()));
    assert_eq!(arr, [3, 4, 5, 6, 7, 8, 9, 0, 1, 2]);
    let mut arr = [0, 1, 2, 3, 4, 5, 6, 7, 8, 9];
    assert_eq!(
        arr.try_moveslice(0..3, 8),
        Err(MoveError::OutOfBounds { len: 10, destination: 8, end: 11 })
    );
    assert_eq!(arr, [0, 1, 2, 3, 4, 5, 6, 7, 8, 9]);
}

#[test]
fn whole_sequence_as_chunk() {
    let mut arr = [1, 2, 3];
    assert_eq!(arr.try_moveslice(0..3, 0), Ok(()));
    assert_eq!(arr, [1, 2, 3]);
    assert_eq!(
        arr.try_moveslice(0..3, 1),
        Err(MoveError::OutOfBounds { len: 3, destination: 1, end: 4 })
    );
    assert_eq!(arr, [1, 2, 3]);
}

#[test]
fn empty_chunk_moves_nothing() {
    let mut arr = [1, 2, 3, 4];
    assert_eq!(arr.try_moveslice(2..2, 0), Ok(()));
    assert_eq!(arr, [1, 2, 3, 4]);
    assert_eq!(arr.try_moveslice(2..2, 4), Ok(()));
    assert_eq!(arr, [1, 2, 3, 4]);
    assert_eq!(
        arr.try_moveslice(2..2, 5),
        Err(MoveError::OutOfBounds { len: 4, destination: 5, end: 5 })
    );
    assert_eq!(arr, [1, 2, 3, 4]);
}

#[test]
fn empty_sequence() {
    let mut arr: [u8; 0] = [];
    assert_eq!(arr.try_moveslice(0..0, 0), Ok(()));
    assert_eq!(arr.try_moveslice(0..1, 0), Err(MoveError::InvalidChunk));
    assert_eq!(
        arr.try_moveslice(0..0, 1),
        Err(MoveError::OutOfBounds { len: 0, destination: 1, end: 1 })
    );
}

#[test]
fn vectors_move_as_slices_do() {
    let mut v = vec![1, 2, 3, 4, 5, 6, 7, 8, 9];
    v.moveslice(3..6, 1);
    assert_eq!(v, vec![1, 4, 5, 6, 2, 3, 7, 8, 9]);
    assert_eq!(v.try_moveslice(3..6, 6), Ok(()));
    assert_eq!(v, vec![1, 4, 5, 7, 8, 9, 6, 2, 3]);
    assert_eq!(
        v.try_moveslice(3..6, 7),
        Err(MoveError::OutOfBounds { len: 9, destination: 7, end: 10 })
    );
    assert_eq!(v, vec![1, 4, 5, 7, 8, 9, 6, 2, 3]);
}

#[test]
fn part_of_a_slice_moves_alone() {
    let mut arr = [1, 2, 3, 4, 5, 6, 7, 8, 9];
    let part: &mut [i32] = &mut arr[2..7];
    assert_eq!(part.try_moveslice(0..2, 3), Ok(()));
    assert_eq!(arr, [1, 2, 5, 6, 7, 3, 4, 8, 9]);
}

#[test]
fn elements_need_not_be_copied() {
    let mut words = vec![
        String::from("a"),
        String::from("b"),
        String::from("c"),
        String::from("d"),
        String::from("e"),
    ];
    assert_eq!(words.try_moveslice(3..5, 1), Ok(()));
    assert_eq!(words, vec!["a", "d", "e", "b", "c"]);
    assert_eq!(words.try_moveslice(0..1, 4), Ok(()));
    assert_eq!(words, vec!["d", "e", "b", "c", "a"]);
}
