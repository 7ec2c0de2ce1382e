//! The session state machine: spawn, input dispatch, gravity, locking with
//! its top-overflow game-over check, line clearing and the score counters.
//! The surrounding program performs rendering, key reading and timing; every
//! decision about the game state is made here.

use vstd::prelude::*;
use crate::geometry::Point;
use crate::geometry::spec_inside_screen;
use crate::board::Board;
use crate::pieces::Tetromino;
use crate::pieces::spec_catalog;
use crate::pieces::spec_rotated;
use crate::pieces::wf_piece;
use crate::engine::drop_piece;
use crate::engine::game_tick;
use crate::engine::is_valid_coords;
use crate::engine::rotate_tetrimino;
use crate::engine::spec_is_valid;
use crate::lines::check_full_lines;
use crate::lines::spec_clear_pass;

verus! {

/// Points awarded when a piece locks.
pub const PIECE_SET_POINTS: u32 = 20;

/// A player request, as decoded from a key by the surrounding program.
#[derive(Clone, Copy, Debug, PartialEq, Eq, Structural)]
pub enum Action {
    Left,
    Right,
    Rotate,
    SoftTick,
    HardDrop,
    TogglePreview,
    Ignore,
}

/// What an action did to the falling cycle: keep waiting for input, end the
/// current wait interval early, or ground the piece at once.
#[derive(Clone, Copy, Debug, PartialEq, Eq, Structural)]
pub enum Outcome {
    Continue,
    EndWait,
    Grounded,
}

/// The whole session: the board of locked cells, the active piece with its
/// pivot position, the buffered next piece, the preview toggle and the
/// score, line and level counters.
pub struct GameState {
    pub board: Board,
    pub current: Tetromino,
    pub pos: Point,
    pub next: Tetromino,
    pub show_next: bool,
    pub score: u32,
    pub line_nb: u32,
    pub level: u32,
}

impl GameState {
    /// Validity: the board has its shape, both pieces keep the catalog
    /// bound on offsets, and the pivot stays near the board, as every
    /// committed move leaves it.
    pub open spec fn wf(self) -> bool {
        &&& self.board.wf()
        &&& wf_piece(self.current)
        &&& wf_piece(self.next)
        &&& -100 <= self.pos.x <= 100
        &&& -100 <= self.pos.y <= 100
    }

    /// The fixed spawn position: column 5, row 0.
    pub open spec fn spec_spawn_pos() -> Point {
        Point { x: 5, y: 0 }
    }

    /// A fresh session: empty board, zeroed counters, the first and the
    /// buffered piece drawn from the catalog by the given indices.
    pub fn new(first: usize, second: usize) -> (g: GameState)
        requires
            first < 7,
            second < 7,
        ensures
            g.wf(),
            forall|i: int| 0 <= i < 20 ==> crate::board::spec_row_empty(#[trigger] g.board@[i]),
            g.current == spec_catalog(first as int),
            g.next == spec_catalog(second as int),
            g.pos == Self::spec_spawn_pos(),
            !g.show_next,
            g.score == 0 && g.line_nb == 0 && g.level == 0,
    {
        GameState {
            board: Board::new(),
            current: crate::pieces::catalog(first),
            pos: Point { x: 5, y: 0 },
            next: crate::pieces::catalog(second),
            show_next: false,
            score: 0,
            line_nb: 0,
            level: 0,
        }
    }

    /// Start the next drop cycle: the buffered piece becomes the active one
    /// at the spawn position, and a new buffered piece is taken from the
    /// catalog by the given index.
    pub fn spawn(&mut self, next_index: usize)
        requires
            old(self).wf(),
            next_index < 7,
        ensures
            final(self).wf(),
            final(self).current == old(self).next,
            final(self).next == spec_catalog(next_index as int),
            final(self).pos == Self::spec_spawn_pos(),
            final(self).board == old(self).board,
            final(self).score == old(self).score,
            final(self).line_nb == old(self).line_nb,
            final(self).level == old(self).level,
            final(self).show_next == old(self).show_next,
    {
        self.current = self.next;
        self.next = crate::pieces::catalog(next_index);
        self.pos = Point { x: 5, y: 0 };
    }

    /// Start the next drop cycle with a uniformly random buffered piece.
    pub fn spawn_random(&mut self)
        requires
            old(self).wf(),
        ensures
            final(self).wf(),
            final(self).current == old(self).next,
            exists|i: int| 0 <= i < 7 && final(self).next == spec_catalog(i),
            final(self).pos == Self::spec_spawn_pos(),
            final(self).board == old(self).board,
            final(self).score == old(self).score,
            final(self).line_nb == old(self).line_nb,
            final(self).level == old(self).level,
            final(self).show_next == old(self).show_next,
    {
        let i = random_piece_index();
        self.spawn(i);
        proof {
            assert(0 <= i as int && (i as int) < 7 && self.next == spec_catalog(i as int));
        }
    }

    /// Dispatch one player action, each committed only if the moved or
    /// rotated piece is valid; invalid requests are silently ignored. A
    /// soft tick awards one point and ends the wait interval; a hard drop
    /// awards one point per row descended and grounds the piece.
    pub fn apply_action(&mut self, action: Action) -> (outcome: Outcome)
        requires
            old(self).wf(),
            old(self).score <= u32::MAX - 200,
        ensures
            final(self).wf(),
            final(self).board == old(self).board,
            final(self).current.rotatable == old(self).current.rotatable,
            final(self).line_nb == old(self).line_nb,
            final(self).level == old(self).level,
            action == Action::Left ==> outcome == Outcome::Continue && final(self).score == old(
                self,
            ).score && final(self).current == old(self).current && final(self).pos == (if spec_is_valid(
                old(self).current,
                Point { x: (old(self).pos.x - 1) as i32, y: old(self).pos.y },
                old(self).board@,
            ) {
                Point { x: (old(self).pos.x - 1) as i32, y: old(self).pos.y }
            } else {
                old(self).pos
            }),
            action == Action::Right ==> outcome == Outcome::Continue && final(self).score == old(
                self,
            ).score && final(self).current == old(self).current && final(self).pos == (if spec_is_valid(
                old(self).current,
                Point { x: (old(self).pos.x + 1) as i32, y: old(self).pos.y },
                old(self).board@,
            ) {
                Point { x: (old(self).pos.x + 1) as i32, y: old(self).pos.y }
            } else {
                old(self).pos
            }),
            action == Action::Rotate ==> outcome == Outcome::Continue && final(self).score == old(
                self,
            ).score && final(self).pos == old(self).pos && final(self).current == (
            if old(self).current.rotatable && spec_is_valid(
                spec_rotated(old(self).current),
                old(self).pos,
                old(self).board@,
            ) {
                spec_rotated(old(self).current)
            } else {
                old(self).current
            }),
            action == Action::SoftTick ==> outcome == Outcome::EndWait && final(self).score == old(
                self,
            ).score + 1 && final(self).current == old(self).current && final(self).pos == old(
                self,
            ).pos,
            action == Action::HardDrop ==> outcome == Outcome::Grounded && final(self).current
                == old(self).current && final(self).pos.x == old(self).pos.x && old(self).pos.y
                <= final(self).pos.y && final(self).score == old(self).score + (final(self).pos.y
                - old(self).pos.y) && !spec_is_valid(
                old(self).current,
                Point { x: old(self).pos.x, y: (final(self).pos.y + 1) as i32 },
                old(self).board@,
            ) && (forall|k: i32| old(self).pos.y < k <= final(self).pos.y
                ==> #[trigger] spec_is_valid(
                old(self).current,
                Point { x: old(self).pos.x, y: k },
                old(self).board@,
            )),
            action == Action::TogglePreview || action == Action::Ignore ==> outcome
                == Outcome::Continue && final(self).score == old(self).score && final(self).current
                == old(self).current && final(self).pos == old(self).pos,
            action == Action::TogglePreview ==> final(self).show_next == !old(self).show_next,
            action != Action::TogglePreview ==> final(self).show_next == old(self).show_next,
            final(self).next == old(self).next,
    {
        match action {
            Action::Left => {
                let next = Point { x: self.pos.x - 1, y: self.pos.y };
                if is_valid_coords(&self.current, &next, &self.board) {
                    self.pos = next;
                    proof {
                        assert(crate::pieces::wf_offset(self.current.blocks[0]));
                        assert(crate::engine::spec_cell_ok(
                            self.board@,
                            self.current.blocks[0],
                            self.pos,
                        ));
                    }
                }
                Outcome::Continue
            },
            Action::Right => {
                let next = Point { x: self.pos.x + 1, y: self.pos.y };
                if is_valid_coords(&self.current, &next, &self.board) {
                    self.pos = next;
                    proof {
                        assert(crate::pieces::wf_offset(self.current.blocks[0]));
                        assert(crate::engine::spec_cell_ok(
                            self.board@,
                            self.current.blocks[0],
                            self.pos,
                        ));
                    }
                }
                Outcome::Continue
            },
            Action::Rotate => {
                let mut piece = self.current;
                rotate_tetrimino(&mut piece, &self.pos, &self.board);
                self.current = piece;
                Outcome::Continue
            },
            Action::SoftTick => {
                self.score = self.score + 1;
                Outcome::EndWait
            },
            Action::HardDrop => {
                let mut p = self.pos;
                let fell = drop_piece(&self.current, &mut p, &self.board);
                proof {
                    assert(crate::pieces::wf_offset(self.current.blocks[0]));
                    if p.y != self.pos.y {
                        assert(spec_is_valid(
                            self.current,
                            Point { x: self.pos.x, y: p.y },
                            self.board@,
                        ));
                        assert(crate::engine::spec_cell_ok(
                            self.board@,
                            self.current.blocks[0],
                            Point { x: self.pos.x, y: p.y },
                        ));
                    }
                }
                self.pos = p;
                self.score = self.score + fell;
                Outcome::Grounded
            },
            Action::TogglePreview => {
                self.show_next = !self.show_next;
                Outcome::Continue
            },
            Action::Ignore => { Outcome::Continue },
        }
    }

    /// One timed gravity step: move the active piece one row down if valid,
    /// else report it grounded.
    pub fn tick(&mut self) -> (grounded: bool)
        requires
            old(self).wf(),
        ensures
            final(self).wf(),
            final(self).board == old(self).board,
            final(self).current == old(self).current,
            final(self).next == old(self).next,
            final(self).score == old(self).score,
            final(self).line_nb == old(self).line_nb,
            final(self).level == old(self).level,
            final(self).show_next == old(self).show_next,
            grounded == !spec_is_valid(
                old(self).current,
                Point { x: old(self).pos.x, y: (old(self).pos.y + 1) as i32 },
                old(self).board@,
            ),
            grounded ==> final(self).pos == old(self).pos,
            !grounded ==> final(self).pos.x == old(self).pos.x && final(self).pos.y == old(
                self,
            ).pos.y + 1,
    {
        let mut p = self.pos;
        let grounded = game_tick(&self.current, &mut p, &self.board);
        proof {
            if !grounded {
                assert(crate::pieces::wf_offset(self.current.blocks[0]));
                assert(crate::engine::spec_cell_ok(
                    self.board@,
                    self.current.blocks[0],
                    Point { x: self.pos.x, y: (self.pos.y + 1) as i32 },
                ));
            }
        }
        self.pos = p;
        grounded
    }

    /// The index of the first active cell that falls outside the board when
    /// the piece locks, or 4 when every cell is inside.
    pub open spec fn spec_first_overflow(t: Tetromino, pos: Point) -> int {
        if !spec_inside_screen(t.blocks[0].x + pos.x, t.blocks[0].y + pos.y) {
            0
        } else if !spec_inside_screen(t.blocks[1].x + pos.x, t.blocks[1].y + pos.y) {
            1
        } else if !spec_inside_screen(t.blocks[2].x + pos.x, t.blocks[2].y + pos.y) {
            2
        } else if !spec_inside_screen(t.blocks[3].x + pos.x, t.blocks[3].y + pos.y) {
            3
        } else {
            4
        }
    }

    /// The board after the first `n` cells of the locking piece are written.
    pub open spec fn spec_locked_upto(
        b: Seq<Seq<bool>>,
        t: Tetromino,
        pos: Point,
        n: int,
    ) -> Seq<Seq<bool>>
        decreases n,
    {
        if n <= 0 {
            b
        } else {
            let prev = Self::spec_locked_upto(b, t, pos, n - 1);
            let x = t.blocks[n - 1].x + pos.x;
            let y = t.blocks[n - 1].y + pos.y;
            prev.update(y, prev[y].update(x, true))
        }
    }

    /// Lock the active piece: award the fixed placement bonus, then write
    /// its cells into the board one by one. If a cell falls outside the
    /// board the game is over at once; cells checked before it have already
    /// been written and stay.
    pub fn lock_piece(&mut self) -> (game_over: bool)
        requires
            old(self).wf(),
            old(self).score <= u32::MAX - 20,
        ensures
            final(self).wf(),
            final(self).score == old(self).score + 20,
            final(self).line_nb == old(self).line_nb,
            final(self).level == old(self).level,
            final(self).current == old(self).current,
            final(self).next == old(self).next,
            final(self).pos == old(self).pos,
            final(self).show_next == old(self).show_next,
            game_over == (Self::spec_first_overflow(old(self).current, old(self).pos) < 4),
            final(self).board@ == Self::spec_locked_upto(
                old(self).board@,
                old(self).current,
                old(self).pos,
                Self::spec_first_overflow(old(self).current, old(self).pos),
            ),
    {
        self.score = self.score + PIECE_SET_POINTS;
        let ghost b0 = self.board@;
        let ghost t = self.current;
        let ghost pos0 = self.pos;
        let ghost stop = Self::spec_first_overflow(t, pos0);
        let ghost score1 = self.score;
        let ghost nb0 = self.line_nb;
        let ghost lv0 = self.level;
        let ghost next0 = self.next;
        let ghost sh0 = self.show_next;
        let mut i: usize = 0;
        while i < 4
            invariant
                self.score == score1,
                score1 == old(self).score + 20,
                self.line_nb == nb0,
                nb0 == old(self).line_nb,
                self.level == lv0,
                lv0 == old(self).level,
                self.next == next0,
                next0 == old(self).next,
                self.show_next == sh0,
                sh0 == old(self).show_next,
                b0 == old(self).board@,
                t == old(self).current,
                pos0 == old(self).pos,
                self.board.wf(),
                wf_piece(t),
                -100 <= pos0.x <= 100,
                -100 <= pos0.y <= 100,
                t == self.current,
                pos0 == self.pos,
                i <= 4,
                stop == Self::spec_first_overflow(t, pos0),
                i as int <= stop,
                self.board@ == Self::spec_locked_upto(b0, t, pos0, i as int),
                self.current == t,
                wf_piece(self.current),
                wf_piece(self.next),
            decreases 4 - i,
        {
            let p = self.current.blocks[i];
            proof {
                assert(crate::pieces::wf_offset(t.blocks[i as int]));
            }
            let cell = Point { x: p.x + self.pos.x, y: p.y + self.pos.y };
            if !crate::geometry::inside_screen(&cell) {
                proof {
                    assert(stop == i as int);
                }
                return true;
            }
            self.board.set(&cell, true);
            i = i + 1;
        }
        proof {
            assert(stop == 4);
        }
        false
    }

    /// Resolve the pass after a lock: remove the full lines, count them and
    /// add the awarded points, combos included, to the score.
    pub fn clear_lines(&mut self) -> (points: u32)
        requires
            old(self).wf(),
            old(self).score <= u32::MAX - 21000,
            old(self).line_nb <= u32::MAX - 20,
        ensures
            final(self).wf(),
            final(self).board@ == spec_clear_pass(old(self).board@, 19, 1).0,
            final(self).line_nb == old(self).line_nb + spec_clear_pass(old(self).board@, 19, 1).1,
            points == spec_clear_pass(old(self).board@, 19, 1).2,
            final(self).score == old(self).score + points,
            final(self).current == old(self).current,
            final(self).next == old(self).next,
            final(self).pos == old(self).pos,
            final(self).level == old(self).level,
            final(self).show_next == old(self).show_next,
    {
        let mut nb = self.line_nb;
        let points = check_full_lines(&mut self.board, &mut nb);
        self.line_nb = nb;
        self.score = self.score + points;
        points
    }
}

/// Relies on rand::random_range: a uniformly random value within the given
/// non-empty range, here an index into the seven-entry piece catalog.
#[verifier::external_body]
fn random_piece_index() -> (r: usize)
    ensures
        r < 7,
{
    rand::random_range(0..7)
}

} // verus!
