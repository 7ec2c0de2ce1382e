//! Collision checking, rotation with validity gating, gravity steps and the
//! hard drop. `spec_is_valid` is the single source of truth for legality.

use vstd::prelude::*;
use crate::geometry::Point;
use crate::geometry::spec_inside_screen;
use crate::board::Board;
use crate::pieces::Tetromino;
use crate::pieces::spec_rotated;
use crate::pieces::wf_piece;

verus! {

/// One translated cell is legal: on the board and unoccupied.
pub open spec fn spec_cell_ok(b: Seq<Seq<bool>>, p: Point, pos: Point) -> bool {
    spec_inside_screen(p.x + pos.x, p.y + pos.y) && !b[p.y + pos.y][p.x + pos.x]
}

/// A placement is valid iff all four translated cells are within bounds and
/// unoccupied.
pub open spec fn spec_is_valid(t: Tetromino, pos: Point, b: Seq<Seq<bool>>) -> bool {
    forall|i: int| 0 <= i < 4 ==> spec_cell_ok(b, #[trigger] t.blocks[i], pos)
}

/// Check every block of a tetromino, translated by `position`, against the
/// screen bounds and the already-occupied board cells.
pub fn is_valid_coords(tetromino: &Tetromino, position: &Point, board: &Board) -> (r: bool)
    requires
        board.wf(),
    ensures
        r == spec_is_valid(*tetromino, *position, board@),
{
    let mut i: usize = 0;
    let mut ok: bool = true;
    while i < 4
        invariant
            board.wf(),
            i <= 4,
            ok == (forall|k: int| 0 <= k < i as int ==> spec_cell_ok(
                board@,
                #[trigger] tetromino.blocks[k],
                *position,
            )),
        decreases 4 - i,
    {
        let p = tetromino.blocks[i];
        let cx: i64 = p.x as i64 + position.x as i64;
        let cy: i64 = p.y as i64 + position.y as i64;
        if 0 <= cx && cx < 10 && 0 <= cy && cy < 20 {
            let q = Point { x: cx as i32, y: cy as i32 };
            if board.get(&q) {
                ok = false;
            }
        } else {
            ok = false;
        }
        i += 1;
    }
    ok
}

/// Rotate the active piece in place: a non-rotatable piece ignores the
/// request, and a rotation whose result does not fit at the current position
/// is discarded, leaving the piece unchanged (no wall kick is attempted).
pub fn rotate_tetrimino(tetromino: &mut Tetromino, position: &Point, board: &Board)
    requires
        board.wf(),
        wf_piece(*old(tetromino)),
    ensures
        wf_piece(*final(tetromino)),
        old(tetromino).rotatable && spec_is_valid(spec_rotated(*old(tetromino)), *position, board@)
            ==> *final(tetromino) == spec_rotated(*old(tetromino)),
        !(old(tetromino).rotatable && spec_is_valid(
            spec_rotated(*old(tetromino)),
            *position,
            board@,
        )) ==> *final(tetromino) == *old(tetromino),
{
    if tetromino.rotatable {
        let turned = crate::pieces::rotated(tetromino);
        if is_valid_coords(&turned, position, board) {
            *tetromino = turned;
        }
    }
}

/// One gravity step: move the piece one row down if the new position is
/// valid; report `true` (grounded) if it is not.
pub fn game_tick(tetromino: &Tetromino, position: &mut Point, board: &Board) -> (grounded: bool)
    requires
        board.wf(),
        old(position).y < i32::MAX,
    ensures
        grounded == !spec_is_valid(
            *tetromino,
            Point { x: old(position).x, y: (old(position).y + 1) as i32 },
            board@,
        ),
        grounded ==> *final(position) == *old(position),
        !grounded ==> final(position).x == old(position).x && final(position).y == old(
            position,
        ).y + 1,
{
    let next = Point { x: position.x, y: position.y + 1 };
    if is_valid_coords(tetromino, &next, board) {
        position.y = position.y + 1;
        false
    } else {
        true
    }
}

/// Move the piece straight down until no further downward step is valid, and
/// return the number of rows descended.
pub fn drop_piece(tetromino: &Tetromino, position: &mut Point, board: &Board) -> (fell: u32)
    requires
        board.wf(),
        wf_piece(*tetromino),
        old(position).y < i32::MAX,
    ensures
        final(position).x == old(position).x,
        old(position).y <= final(position).y,
        fell == final(position).y - old(position).y,
        forall|k: i32| old(position).y < k <= final(position).y ==> #[trigger] spec_is_valid(
            *tetromino,
            Point { x: old(position).x, y: k },
            board@,
        ),
        !spec_is_valid(
            *tetromino,
            Point { x: old(position).x, y: (final(position).y + 1) as i32 },
            board@,
        ),
{
    let ghost start = *position;
    let mut descended: u32 = 0;
    loop
        invariant
            board.wf(),
            wf_piece(*tetromino),
            position.x == start.x,
            start.y <= position.y,
            position.y < i32::MAX,
            descended == position.y - start.y,
            forall|k: i32| start.y < k <= position.y ==> #[trigger] spec_is_valid(
                *tetromino,
                Point { x: start.x, y: k },
                board@,
            ),
        ensures
            position.x == start.x,
            start.y <= position.y,
            descended == position.y - start.y,
            forall|k: i32| start.y < k <= position.y ==> #[trigger] spec_is_valid(
                *tetromino,
                Point { x: start.x, y: k },
                board@,
            ),
            !spec_is_valid(
                *tetromino,
                Point { x: start.x, y: (position.y + 1) as i32 },
                board@,
            ),
        decreases i32::MAX - position.y,
    {
        let next = Point { x: position.x, y: position.y + 1 };
        if is_valid_coords(tetromino, &next, board) {
            proof {
                assert(spec_cell_ok(board@, tetromino.blocks[0], next));
                assert(next.y + tetromino.blocks[0].y < 20);
            }
            position.y = position.y + 1;
            descended = descended + 1;
        } else {
            break;
        }
    }
    descended
}

} // verus!
