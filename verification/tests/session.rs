use blockfall::game::Action;
use blockfall::game::GameState;
use blockfall::game::Outcome;
use blockfall::geometry::Point;
use blockfall::pieces::catalog;

// Catalog draw order: T, I, J, L, S, Z, O.
const T_IDX: usize = 0;
const I_IDX: usize = 1;
const J_IDX: usize = 2;
const O_IDX: usize = 6;

#[test]
fn hard_drop_of_square_on_empty_board() {
    // Spawn the square at (5, 0); the board is empty, so the hard drop
    // descends 19 rows for 19 points and the lock bonus adds 20: 39 total.
    let mut g = GameState::new(O_IDX, T_IDX);
    let outcome = g.apply_action(Action::HardDrop);
    assert_eq!(outcome, Outcome::Grounded);
    assert_eq!(g.pos.y, 19);
    assert_eq!(g.score, 19);
    let over = g.lock_piece();
    assert!(!over);
    assert_eq!(g.score, 39);
    // The four square cells sit at the bottom of the board.
    assert!(g.board.get(&Point { x: 5, y: 19 }));
    assert!(g.board.get(&Point { x: 6, y: 19 }));
    assert!(g.board.get(&Point { x: 5, y: 18 }));
    assert!(g.board.get(&Point { x: 6, y: 18 }));
    let points = g.clear_lines();
    assert_eq!(points, 0);
    assert_eq!(g.line_nb, 0);
}

#[test]
fn filling_the_gap_clears_the_bottom_row() {
    // Row 19 is full except column 0; a vertical I dropped down column 0
    // completes it: one line clears for 100 points and the stack shifts.
    let mut g = GameState::new(I_IDX, T_IDX);
    for x in 1..10 {
        g.board.set(&Point { x, y: 19 }, true);
    }
    g.pos = Point { x: 0, y: 2 };
    let turned = g.apply_action(Action::Rotate);
    assert_eq!(turned, Outcome::Continue);
    let outcome = g.apply_action(Action::HardDrop);
    assert_eq!(outcome, Outcome::Grounded);
    // The vertical I spans pivot rows y-2..=y+1; it rests with its lowest
    // block in row 19.
    assert_eq!(g.pos.y, 18);
    let over = g.lock_piece();
    assert!(!over);
    let score_before = g.score;
    let points = g.clear_lines();
    assert_eq!(points, 100);
    assert_eq!(g.line_nb, 1);
    assert_eq!(g.score, score_before + 100);
    // The cleared bottom row kept only what shifted into it: the next
    // block of the I, previously in row 18.
    assert!(g.board.get(&Point { x: 0, y: 19 }));
    for x in 1..10 {
        assert!(!g.board.get(&Point { x, y: 19 }));
    }
    // The other two I blocks followed, one row lower than where they locked.
    assert!(g.board.get(&Point { x: 0, y: 18 }));
    assert!(g.board.get(&Point { x: 0, y: 17 }));
    assert!(!g.board.get(&Point { x: 0, y: 16 }));
}

#[test]
fn lock_above_the_top_ends_the_game() {
    // A J at the spawn position has a block at row -1: locking there is the
    // top-overflow case and the game is over at once. The two cells checked
    // before the overflowing one have already been written.
    let mut g = GameState::new(J_IDX, T_IDX);
    assert_eq!(g.pos, Point { x: 5, y: 0 });
    let score_before = g.score;
    let over = g.lock_piece();
    assert!(over);
    assert_eq!(g.score, score_before + 20);
    assert_eq!(g.line_nb, 0);
    assert_eq!(g.level, 0);
    // J's first two blocks, (0,0) and (1,0), were written before the
    // out-of-bounds block (-1,-1) was met; (-1,0) was never reached.
    assert!(g.board.get(&Point { x: 5, y: 0 }));
    assert!(g.board.get(&Point { x: 6, y: 0 }));
    assert!(!g.board.get(&Point { x: 4, y: 0 }));
}

#[test]
fn moves_commit_only_when_valid() {
    let mut g = GameState::new(T_IDX, T_IDX);
    // At the spawn row the T still has a block above the screen, so a side
    // move is rejected outright: every cell of the placement must be legal.
    assert_eq!(g.apply_action(Action::Left), Outcome::Continue);
    assert_eq!(g.pos.x, 5);
    // One row down the whole piece is on the board and both moves fit.
    g.pos = Point { x: 5, y: 1 };
    assert_eq!(g.apply_action(Action::Left), Outcome::Continue);
    assert_eq!(g.pos.x, 4);
    assert_eq!(g.apply_action(Action::Right), Outcome::Continue);
    assert_eq!(g.pos.x, 5);
    // Against the left wall a further left move is silently ignored.
    g.pos = Point { x: 1, y: 5 };
    assert_eq!(g.apply_action(Action::Left), Outcome::Continue);
    assert_eq!(g.pos.x, 1);
}

#[test]
fn soft_tick_awards_one_point_and_ends_the_wait() {
    let mut g = GameState::new(T_IDX, T_IDX);
    assert_eq!(g.apply_action(Action::SoftTick), Outcome::EndWait);
    assert_eq!(g.score, 1);
    assert_eq!(g.pos, Point { x: 5, y: 0 });
}

#[test]
fn toggle_preview_flips_only_the_flag() {
    let mut g = GameState::new(T_IDX, T_IDX);
    assert!(!g.show_next);
    assert_eq!(g.apply_action(Action::TogglePreview), Outcome::Continue);
    assert!(g.show_next);
    assert_eq!(g.apply_action(Action::TogglePreview), Outcome::Continue);
    assert!(!g.show_next);
    assert_eq!(g.score, 0);
}

#[test]
fn gravity_grounds_on_the_stack() {
    let mut g = GameState::new(T_IDX, T_IDX);
    g.pos = Point { x: 5, y: 10 };
    for x in 0..10 {
        g.board.set(&Point { x, y: 12 }, true);
    }
    // One step down fits; the next would touch the stack.
    assert!(!g.tick());
    assert_eq!(g.pos.y, 11);
    assert!(g.tick());
    assert_eq!(g.pos.y, 11);
}

#[test]
fn spawn_cycles_the_buffered_piece() {
    let mut g = GameState::new(T_IDX, I_IDX);
    g.spawn(J_IDX);
    assert_eq!(g.current, catalog(I_IDX));
    assert_eq!(g.next, catalog(J_IDX));
    assert_eq!(g.pos, Point { x: 5, y: 0 });
}

#[test]
fn spawn_random_draws_from_the_catalog() {
    let mut g = GameState::new(T_IDX, I_IDX);
    g.spawn_random();
    assert_eq!(g.current, catalog(I_IDX));
    let drawn = g.next;
    assert!((0..7).any(|i| catalog(i) == drawn));
}
