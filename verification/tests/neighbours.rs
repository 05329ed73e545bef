use game_of_life::{Board, State};

const OFFSETS: [(i32, i32); 8] =
    [(1, 1), (1, 0), (1, -1), (0, -1), (-1, -1), (-1, 0), (-1, 1), (0, 1)];

fn empty(cols: i32, rows: i32) -> Board {
    Board::new(cols, rows, vec![State::Dead; (cols * rows) as usize])
}

fn possible_neighbours(board: &Board, index: usize) -> usize {
    OFFSETS.iter().filter(|&&offset| board.indexate(index, offset).is_some()).count()
}

#[test]
fn indexate_centre_of_three_by_three() {
    let board = empty(3, 3);
    assert_eq!(board.indexate(4, (1, 1)), Some(8));
    assert_eq!(board.indexate(4, (1, 0)), Some(7));
    assert_eq!(board.indexate(4, (1, -1)), Some(6));
    assert_eq!(board.indexate(4, (0, -1)), Some(3));
    assert_eq!(board.indexate(4, (-1, -1)), Some(0));
    assert_eq!(board.indexate(4, (-1, 0)), Some(1));
    assert_eq!(board.indexate(4, (-1, 1)), Some(2));
    assert_eq!(board.indexate(4, (0, 1)), Some(5));
}

#[test]
fn indexate_does_not_wrap_at_row_ends() {
    let board = empty(3, 3);
    assert_eq!(board.indexate(2, (0, 1)), None);
    assert_eq!(board.indexate(3, (0, -1)), None);
    assert_eq!(board.indexate(5, (0, 1)), None);
    assert_eq!(board.indexate(5, (-1, 1)), None);
    assert_eq!(board.indexate(6, (-1, -1)), None);
}

#[test]
fn indexate_does_not_leave_first_or_last_row() {
    let board = empty(3, 3);
    assert_eq!(board.indexate(0, (-1, 0)), None);
    assert_eq!(board.indexate(1, (-1, 1)), None);
    assert_eq!(board.indexate(7, (1, 0)), None);
    assert_eq!(board.indexate(8, (1, -1)), None);
}

#[test]
fn indexate_uses_row_major_order() {
    let wide = empty(5, 2);
    assert_eq!(wide.indexate(1, (1, 0)), Some(6));
    assert_eq!(wide.indexate(7, (-1, 1)), Some(3));
    assert_eq!(wide.indexate(4, (1, -1)), Some(8));
    let tall = empty(2, 5);
    assert_eq!(tall.indexate(1, (1, 0)), Some(3));
    assert_eq!(tall.indexate(7, (-1, -1)), Some(4));
    assert_eq!(tall.indexate(8, (1, 0)), None);
}

#[test]
fn indexate_zero_offset_is_the_cell_itself() {
    let board = empty(4, 3);
    for index in 0..12 {
        assert_eq!(board.indexate(index, (0, 0)), Some(index));
    }
}

#[test]
fn indexate_takes_any_index() {
    let board = empty(3, 3);
    assert_eq!(board.indexate(9, (0, 0)), None);
    assert_eq!(board.indexate(9, (-1, 0)), Some(6));
    assert_eq!(board.indexate(11, (-1, -2)), Some(6));
    assert_eq!(board.indexate(usize::MAX, (-1, 0)), None);
    let column = empty(1, 2);
    assert_eq!(column.indexate(usize::MAX, (i32::MIN, 0)), None);
    assert_eq!(column.indexate(usize::MAX, (i32::MAX, 0)), None);
}

#[test]
fn indexate_takes_any_offset() {
    let board = empty(4, 4);
    assert_eq!(board.indexate(0, (3, 3)), Some(15));
    assert_eq!(board.indexate(15, (-3, -2)), Some(1));
    assert_eq!(board.indexate(5, (i32::MAX, 0)), None);
    assert_eq!(board.indexate(5, (0, i32::MIN)), None);
    assert_eq!(board.indexate(5, (i32::MIN, i32::MAX)), None);
}

#[test]
fn corner_has_three_possible_neighbours() {
    let board = empty(3, 3);
    for corner in [0, 2, 6, 8] {
        assert_eq!(possible_neighbours(&board, corner), 3);
    }
    let board = empty(5, 4);
    for corner in [0, 4, 15, 19] {
        assert_eq!(possible_neighbours(&board, corner), 3);
    }
    let board = empty(2, 2);
    for corner in 0..4 {
        assert_eq!(possible_neighbours(&board, corner), 3);
    }
}

#[test]
fn edge_has_five_possible_neighbours() {
    let board = empty(3, 3);
    for edge in [1, 3, 5, 7] {
        assert_eq!(possible_neighbours(&board, edge), 5);
    }
    let board = empty(5, 4);
    for edge in [1, 2, 3, 5, 10, 9, 14, 16, 17, 18] {
        assert_eq!(possible_neighbours(&board, edge), 5);
    }
}

#[test]
fn inner_cell_has_eight_possible_neighbours() {
    let board = empty(3, 3);
    assert_eq!(possible_neighbours(&board, 4), 8);
    let board = empty(5, 4);
    for inner in [6, 7, 8, 11, 12, 13] {
        assert_eq!(possible_neighbours(&board, inner), 8);
    }
}

#[test]
fn single_row_or_column_has_at_most_two_neighbours() {
    let row = empty(4, 1);
    assert_eq!(possible_neighbours(&row, 0), 1);
    assert_eq!(possible_neighbours(&row, 1), 2);
    assert_eq!(possible_neighbours(&row, 3), 1);
    let column = empty(1, 4);
    assert_eq!(possible_neighbours(&column, 0), 1);
    assert_eq!(possible_neighbours(&column, 2), 2);
    let single = empty(1, 1);
    assert_eq!(possible_neighbours(&single, 0), 0);
}
