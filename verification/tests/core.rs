use blockfall::board::Board;
use blockfall::engine::drop_piece;
use blockfall::engine::is_valid_coords;
use blockfall::engine::rotate_tetrimino;
use blockfall::geometry::inside_screen;
use blockfall::geometry::Point;
use blockfall::lines::check_full_lines;
use blockfall::pieces::catalog;

// Catalog draw order: T, I, J, L, S, Z, O.
const T_IDX: usize = 0;
const I_IDX: usize = 1;
const J_IDX: usize = 2;
const O_IDX: usize = 6;

#[test]
fn point_add_componentwise() {
    let a = Point { x: 3, y: -2 };
    let b = Point { x: -1, y: 7 };
    let c = a.add(b);
    assert_eq!(c.x, 2);
    assert_eq!(c.y, 5);
}

#[test]
fn inside_screen_bounds() {
    assert!(inside_screen(&Point { x: 0, y: 0 }));
    assert!(inside_screen(&Point { x: 9, y: 19 }));
    assert!(!inside_screen(&Point { x: 10, y: 0 }));
    assert!(!inside_screen(&Point { x: 0, y: 20 }));
    assert!(!inside_screen(&Point { x: -1, y: 5 }));
    assert!(!inside_screen(&Point { x: 5, y: -1 }));
}

#[test]
fn valid_needs_all_four_cells() {
    let board = Board::new();
    let i_piece = catalog(I_IDX);
    // Horizontal I at column 5 fits on the empty board.
    assert!(is_valid_coords(&i_piece, &Point { x: 5, y: 10 }, &board));
    // At column 8 the rightmost block would sit at column 10: out of bounds.
    assert!(!is_valid_coords(&i_piece, &Point { x: 8, y: 10 }, &board));
    // A single occupied cell under one block makes the placement invalid.
    let mut board = Board::new();
    board.set(&Point { x: 6, y: 10 }, true);
    assert!(!is_valid_coords(&i_piece, &Point { x: 5, y: 10 }, &board));
    // The same piece one row higher is clear again.
    assert!(is_valid_coords(&i_piece, &Point { x: 5, y: 9 }, &board));
}

#[test]
fn rotate_square_is_a_no_op() {
    let board = Board::new();
    let o_piece = catalog(O_IDX);
    let mut p = o_piece;
    rotate_tetrimino(&mut p, &Point { x: 5, y: 10 }, &board);
    assert_eq!(p, o_piece);
}

#[test]
fn rotate_twice_negates_offsets() {
    let board = Board::new();
    let t_piece = catalog(T_IDX);
    let mut p = t_piece;
    let center = Point { x: 5, y: 10 };
    rotate_tetrimino(&mut p, &center, &board);
    rotate_tetrimino(&mut p, &center, &board);
    for k in 0..4 {
        assert_eq!(p.blocks[k].x, -t_piece.blocks[k].x);
        assert_eq!(p.blocks[k].y, -t_piece.blocks[k].y);
    }
}

#[test]
fn rotation_that_does_not_fit_is_discarded() {
    let board = Board::new();
    let i_piece = catalog(I_IDX);
    // A horizontal I hugging the left wall cannot turn vertical at row 0:
    // the rotated piece would leave the screen at the top.
    let mut p = i_piece;
    rotate_tetrimino(&mut p, &Point { x: 1, y: 0 }, &board);
    assert_eq!(p, i_piece);
}

#[test]
fn shift_down_discards_row_and_moves_rows_above() {
    let mut board = Board::new();
    // Mark row 4 at column 2, row 5 at column 3, row 6 at column 4.
    board.set(&Point { x: 2, y: 4 }, true);
    board.set(&Point { x: 3, y: 5 }, true);
    board.set(&Point { x: 4, y: 6 }, true);
    board.shift_down(6);
    // Row 6's content is gone; rows 4 and 5 moved to 5 and 6; row 0 fresh.
    assert!(!board.get(&Point { x: 4, y: 6 }));
    assert!(board.get(&Point { x: 2, y: 5 }));
    assert!(board.get(&Point { x: 3, y: 6 }));
    for x in 0..10 {
        assert!(!board.get(&Point { x, y: 0 }));
    }
    assert!(board.row_empty(0));
}

#[test]
fn clearing_two_lines_awards_three_hundred() {
    let mut board = Board::new();
    for x in 0..10 {
        board.set(&Point { x, y: 19 }, true);
        board.set(&Point { x, y: 18 }, true);
    }
    // One stray block above the full rows, to watch it shift down by two.
    board.set(&Point { x: 7, y: 10 }, true);
    let mut lines: u32 = 0;
    let points = check_full_lines(&mut board, &mut lines);
    assert_eq!(points, 300);
    assert_eq!(lines, 2);
    assert!(board.row_empty(19));
    assert!(board.get(&Point { x: 7, y: 12 }));
    assert!(!board.get(&Point { x: 7, y: 10 }));
}

#[test]
fn clearing_nothing_awards_zero() {
    let mut board = Board::new();
    board.set(&Point { x: 0, y: 19 }, true);
    let mut lines: u32 = 5;
    let points = check_full_lines(&mut board, &mut lines);
    assert_eq!(points, 0);
    assert_eq!(lines, 5);
    assert!(board.get(&Point { x: 0, y: 19 }));
}

#[test]
fn scan_stops_at_an_empty_row() {
    let mut board = Board::new();
    // Row 19 is not empty and not full; a full row sits above an empty one.
    board.set(&Point { x: 0, y: 19 }, true);
    for x in 0..10 {
        board.set(&Point { x, y: 17 }, true);
    }
    // Row 18 is empty, so the upward scan never reaches the full row 17.
    let mut lines: u32 = 0;
    let points = check_full_lines(&mut board, &mut lines);
    assert_eq!(points, 0);
    assert_eq!(lines, 0);
    assert!(board.row_full(17));
}

#[test]
fn full_bottom_row_alone_clears() {
    let mut board = Board::new();
    for x in 0..10 {
        board.set(&Point { x, y: 19 }, true);
    }
    let mut lines: u32 = 0;
    let points = check_full_lines(&mut board, &mut lines);
    assert_eq!(points, 100);
    assert_eq!(lines, 1);
    assert!(board.row_empty(19));
}

#[test]
fn four_line_combo_awards_a_thousand() {
    let mut board = Board::new();
    for y in 16..20 {
        for x in 0..10 {
            board.set(&Point { x, y }, true);
        }
    }
    let mut lines: u32 = 0;
    let points = check_full_lines(&mut board, &mut lines);
    // 100 + 200 + 300 + 400 for the rising combo.
    assert_eq!(points, 1000);
    assert_eq!(lines, 4);
    for y in 0..20 {
        assert!(board.row_empty(y));
    }
}

#[test]
fn a_completely_full_board_clears_every_row() {
    let mut board = Board::new();
    for y in 0..20 {
        for x in 0..10 {
            board.set(&Point { x, y }, true);
        }
    }
    let mut lines: u32 = 0;
    let points = check_full_lines(&mut board, &mut lines);
    // The combo climbs through all twenty rows: 100 * (1 + 2 + ... + 20).
    assert_eq!(points, 21000);
    assert_eq!(lines, 20);
    for y in 0..20 {
        assert!(board.row_empty(y));
    }
}

#[test]
fn drop_piece_counts_descended_rows() {
    let board = Board::new();
    let j_piece = catalog(J_IDX);
    let mut pos = Point { x: 5, y: 1 };
    let fell = drop_piece(&j_piece, &mut pos, &board);
    // J has blocks on rows y and y-1; the lowest legal pivot row is 19.
    assert_eq!(pos.y, 19);
    assert_eq!(pos.x, 5);
    assert_eq!(fell, 18);
}
