//! Line-clear detection and combo scoring: one pass scans rows from the
//! bottom upward, stops at an empty row, clears each full row it meets,
//! shifts the stack down and awards points that grow with the combo.

use vstd::prelude::*;
use crate::board::Board;
use crate::board::spec_empty_row;
use crate::board::spec_row_empty;
use crate::board::spec_row_full;

verus! {

/// Rows of the expected shape: 20 of them, 10 cells each.
pub open spec fn wf_rows(rows: Seq<Seq<bool>>) -> bool {
    rows.len() == 20 && forall|i: int| 0 <= i < 20 ==> (#[trigger] rows[i]).len() == 10
}

/// The board after row k is removed and a fresh empty row enters at the top:
/// rows above k move down one index, rows below k stay.
pub open spec fn spec_cleared(rows: Seq<Seq<bool>>, k: int) -> Seq<Seq<bool>> {
    seq![spec_empty_row()] + rows.subrange(0, k) + rows.subrange(k + 1, rows.len() as int)
}

/// How many rows are not empty. Part of the termination measure of the scan:
/// clearing a full row removes a non-empty row and adds an empty one.
pub open spec fn count_nonempty(rows: Seq<Seq<bool>>) -> nat
    decreases rows.len(),
{
    if rows.len() == 0 {
        0
    } else {
        count_nonempty(rows.drop_last()) + if spec_row_empty(rows.last()) {
            0nat
        } else {
            1nat
        }
    }
}

/// One pass of the line-clear scan starting at `index` with the given combo:
/// yields the resulting rows, the number of lines cleared, and the points
/// awarded (100 times the combo per cleared line, the combo rising by one
/// with each line of the pass). The scan stops at the first empty row it
/// meets; at row 0 it clears at most once more.
pub open spec fn spec_clear_pass(rows: Seq<Seq<bool>>, index: int, combo: nat) -> (Seq<
    Seq<bool>,
>, nat, nat)
    decreases index + count_nonempty(rows.subrange(0, index + 1)),
    when 0 <= index < 20 && wf_rows(rows)
    via spec_clear_pass_decreases
{
    if index == 0 {
        if spec_row_full(rows[0]) {
            (spec_cleared(rows, 0), 1nat, 100 * combo)
        } else {
            (rows, 0nat, 0nat)
        }
    } else if spec_row_empty(rows[index]) {
        (rows, 0nat, 0nat)
    } else if spec_row_full(rows[index]) {
        let rest = spec_clear_pass(spec_cleared(rows, index), index, combo + 1);
        (rest.0, rest.1 + 1, rest.2 + 100 * combo)
    } else {
        spec_clear_pass(rows, index - 1, combo)
    }
}

/// Prepending an empty row does not change the number of non-empty rows.
proof fn lemma_count_prepend_empty(s: Seq<Seq<bool>>)
    ensures
        count_nonempty(seq![spec_empty_row()] + s) == count_nonempty(s),
    decreases s.len(),
{
    let t = seq![spec_empty_row()] + s;
    assert(t.len() == s.len() + 1);
    if s.len() == 0 {
        assert(t.drop_last() =~= Seq::<Seq<bool>>::empty());
        assert(count_nonempty(Seq::<Seq<bool>>::empty()) == 0);
        assert(spec_row_empty(t.last()));
        assert(count_nonempty(t) == 0);
        assert(count_nonempty(s) == 0);
    } else {
        assert(t.drop_last() =~= seq![spec_empty_row()] + s.drop_last());
        assert(t.last() == s.last());
        lemma_count_prepend_empty(s.drop_last());
        assert(count_nonempty(t) == count_nonempty(t.drop_last()) + if spec_row_empty(t.last()) {
            0nat
        } else {
            1nat
        });
    }
}

/// Splitting the count of a prefix at its last row.
proof fn lemma_count_split(rows: Seq<Seq<bool>>, i: int)
    requires
        0 <= i < rows.len(),
    ensures
        count_nonempty(rows.subrange(0, i + 1)) == count_nonempty(rows.subrange(0, i)) + if spec_row_empty(rows[i]) {
            0nat
        } else {
            1nat
        },
{
    let s = rows.subrange(0, i + 1);
    assert(s.drop_last() =~= rows.subrange(0, i));
    assert(s.last() == rows[i]);
}

/// There are no more non-empty rows than rows.
proof fn lemma_count_le_len(s: Seq<Seq<bool>>)
    ensures
        count_nonempty(s) <= s.len(),
    decreases s.len(),
{
    if s.len() > 0 {
        lemma_count_le_len(s.drop_last());
    }
}

/// Shape and prefix facts about a cleared board.
proof fn lemma_cleared_facts(rows: Seq<Seq<bool>>, i: int)
    requires
        wf_rows(rows),
        0 <= i < 20,
    ensures
        wf_rows(spec_cleared(rows, i)),
        spec_cleared(rows, i).subrange(0, i + 1) =~= seq![spec_empty_row()] + rows.subrange(0, i),
{
    assert(spec_empty_row().len() == 10);
    assert forall|j: int| 0 <= j < 20 implies (#[trigger] spec_cleared(rows, i)[j]).len() == 10 by {
        if j == 0 {
        } else if j <= i {
            assert(spec_cleared(rows, i)[j] == rows[j - 1]);
        } else {
            assert(spec_cleared(rows, i)[j] == rows[j]);
        }
    }
}

#[via_fn]
proof fn spec_clear_pass_decreases(rows: Seq<Seq<bool>>, index: int, combo: nat) {
    if index == 0 {
    } else if spec_row_empty(rows[index]) {
    } else if spec_row_full(rows[index]) {
        lemma_cleared_facts(rows, index);
        lemma_count_prepend_empty(rows.subrange(0, index));
        lemma_count_split(rows, index);
        assert(rows[index].len() == 10);
        assert(!spec_row_empty(rows[index]));
        assert(count_nonempty(spec_cleared(rows, index).subrange(0, index + 1))
            == count_nonempty(rows.subrange(0, index)));
        assert(count_nonempty(rows.subrange(0, index + 1))
            == count_nonempty(rows.subrange(0, index)) + 1);
    } else {
        lemma_count_split(rows, index);
    }
}

/// A pass clears no more lines than there are non-empty rows at or below
/// its starting index.
proof fn lemma_lines_le_count(rows: Seq<Seq<bool>>, index: int, combo: nat)
    requires
        wf_rows(rows),
        0 <= index < 20,
    ensures
        spec_clear_pass(rows, index, combo).1 <= count_nonempty(rows.subrange(0, index + 1)),
    decreases index + count_nonempty(rows.subrange(0, index + 1)),
{
    if index == 0 {
        if spec_row_full(rows[0]) {
            lemma_count_split(rows, 0);
            assert(rows[0].len() == 10);
            assert(rows[0][0]);
            assert(!spec_row_empty(rows[0]));
            assert(spec_clear_pass(rows, 0, combo).1 == 1);
        }
    } else if spec_row_empty(rows[index]) {
    } else if spec_row_full(rows[index]) {
        lemma_cleared_facts(rows, index);
        lemma_count_prepend_empty(rows.subrange(0, index));
        lemma_count_split(rows, index);
        assert(rows[index].len() == 10);
        lemma_lines_le_count(spec_cleared(rows, index), index, combo + 1);
        let rest = spec_clear_pass(spec_cleared(rows, index), index, combo + 1);
        assert(spec_clear_pass(rows, index, combo).1 == rest.1 + 1);
        assert(count_nonempty(spec_cleared(rows, index).subrange(0, index + 1))
            == count_nonempty(rows.subrange(0, index)));
        assert(count_nonempty(rows.subrange(0, index + 1)) == count_nonempty(
            rows.subrange(0, index),
        ) + 1);
    } else {
        lemma_count_split(rows, index);
        lemma_lines_le_count(rows, index - 1, combo);
        assert(spec_clear_pass(rows, index, combo) == spec_clear_pass(rows, index - 1, combo));
    }
}

/// The points a run of `n` cleared lines awards when the combo starts at
/// `c`: 100 times each combo value in turn.
pub open spec fn combo_points(c: nat, n: nat) -> nat
    decreases n,
{
    if n == 0 {
        0
    } else {
        100 * c + combo_points(c + 1, (n - 1) as nat)
    }
}

/// The points of a pass are exactly the combo sum of its cleared lines:
/// 100 for the first cleared line, 200 for the second, and so on when the
/// combo starts at 1.
pub proof fn lemma_clear_pass_points(rows: Seq<Seq<bool>>, index: int, combo: nat)
    requires
        wf_rows(rows),
        0 <= index < 20,
    ensures
        spec_clear_pass(rows, index, combo).2 == combo_points(
            combo,
            spec_clear_pass(rows, index, combo).1,
        ),
    decreases index + count_nonempty(rows.subrange(0, index + 1)),
{
    if index == 0 {
        if spec_row_full(rows[0]) {
            assert(spec_clear_pass(rows, 0, combo).1 == 1);
            assert(combo_points(combo + 1, 0) == 0);
            assert(combo_points(combo, 1) == 100 * combo);
        }
    } else if spec_row_empty(rows[index]) {
        assert(combo_points(combo, 0) == 0);
    } else if spec_row_full(rows[index]) {
        lemma_cleared_facts(rows, index);
        lemma_count_prepend_empty(rows.subrange(0, index));
        lemma_count_split(rows, index);
        assert(rows[index].len() == 10);
        lemma_clear_pass_points(spec_cleared(rows, index), index, combo + 1);
        let rest = spec_clear_pass(spec_cleared(rows, index), index, combo + 1);
        assert(rest.2 == combo_points(combo + 1, rest.1));
        assert(spec_clear_pass(rows, index, combo).1 == rest.1 + 1);
        assert(spec_clear_pass(rows, index, combo).2 == rest.2 + 100 * combo);
        assert(combo_points(combo, rest.1 + 1) == 100 * combo + combo_points(combo + 1, rest.1));
    } else {
        lemma_count_split(rows, index);
        lemma_clear_pass_points(rows, index - 1, combo);
        assert(spec_clear_pass(rows, index, combo) == spec_clear_pass(rows, index - 1, combo));
    }
}

/// Check for full lines from the bottom upward and remove each one found,
/// shifting the stack down; stop at the first empty row. Count every
/// cleared line in `line_nb` and return the points awarded for the pass,
/// combos included.
pub fn check_full_lines(occupied: &mut Board, line_nb: &mut u32) -> (points: u32)
    requires
        old(occupied).wf(),
        *old(line_nb) <= u32::MAX - 20,
    ensures
        final(occupied).wf(),
        final(occupied)@ == spec_clear_pass(old(occupied)@, 19, 1).0,
        *final(line_nb) == *old(line_nb) + spec_clear_pass(old(occupied)@, 19, 1).1,
        points == spec_clear_pass(old(occupied)@, 19, 1).2,
        points <= 21000,
{
    let ghost orig = occupied@;
    let ghost target = spec_clear_pass(orig, 19, 1);
    let ghost lines0 = *line_nb;
    proof {
        lemma_lines_le_count(orig, 19, 1);
        lemma_count_le_len(orig.subrange(0, 20));
        assert(target.1 <= 20);
    }
    let mut index: usize = 19;
    let mut combo: u32 = 1;
    let mut score: u32 = 0;
    while index > 0
        invariant_except_break
            occupied.wf(),
            index <= 19,
            1 <= combo <= 21,
            score == 50 * (combo - 1) * combo,
            *line_nb == lines0 + combo - 1,
            lines0 <= u32::MAX - 20,
            target == spec_clear_pass(orig, 19, 1),
            target.1 <= 20,
            target.0 == spec_clear_pass(occupied@, index as int, combo as nat).0,
            target.1 == combo - 1 + spec_clear_pass(occupied@, index as int, combo as nat).1,
            target.2 == score + spec_clear_pass(occupied@, index as int, combo as nat).2,
        ensures
            occupied.wf(),
            index <= 19,
            1 <= combo <= 21,
            score == 50 * (combo - 1) * combo,
            *line_nb == lines0 + combo - 1,
            lines0 <= u32::MAX - 20,
            target == spec_clear_pass(orig, 19, 1),
            target.1 <= 20,
            target.0 == spec_clear_pass(occupied@, index as int, combo as nat).0,
            target.1 == combo - 1 + spec_clear_pass(occupied@, index as int, combo as nat).1,
            target.2 == score + spec_clear_pass(occupied@, index as int, combo as nat).2,
            index > 0 ==> spec_clear_pass(occupied@, index as int, combo as nat).0 == occupied@
                && spec_clear_pass(occupied@, index as int, combo as nat).1 == 0
                && spec_clear_pass(occupied@, index as int, combo as nat).2 == 0,
        decreases index + count_nonempty(occupied@.subrange(0, index as int + 1)),
    {
        let ghost cur = occupied@;
        if occupied.row_empty(index) {
            break;
        } else if occupied.row_full(index) {
            proof {
                lemma_cleared_facts(cur, index as int);
                lemma_count_prepend_empty(cur.subrange(0, index as int));
                lemma_count_split(cur, index as int);
                assert(cur[index as int].len() == 10);
                let rest = spec_clear_pass(spec_cleared(cur, index as int), index as int,
                    combo as nat + 1);
                assert(spec_clear_pass(cur, index as int, combo as nat).1 == rest.1 + 1);
                assert(combo <= 20);
            }
            *line_nb = *line_nb + 1;
            assert(score + 100 * combo == 50 * combo * (combo + 1)) by (nonlinear_arith)
                requires
                    score == 50 * (combo - 1) * combo,
            ;
            assert(50 * combo * (combo + 1) <= 21000) by (nonlinear_arith)
                requires
                    1 <= combo <= 20,
            ;
            score = score + 100 * combo;
            combo = combo + 1;
            occupied.clear_row(index);
            occupied.shift_down(index);
            proof {
                assert(occupied@ =~= spec_cleared(cur, index as int));
            }
        } else {
            proof {
                lemma_count_split(cur, index as int);
            }
            index = index - 1;
        }
    }
    if index == 0 {
        let ghost cur = occupied@;
        if occupied.row_full(0) {
            proof {
                assert(spec_clear_pass(cur, 0, combo as nat).1 == 1);
                assert(combo <= 20);
            }
            *line_nb = *line_nb + 1;
            assert(score + 100 * combo <= 21000) by (nonlinear_arith)
                requires
                    score == 50 * (combo - 1) * combo,
                    1 <= combo <= 20,
            ;
            score = score + 100 * combo;
            occupied.clear_row(0);
            proof {
                assert(occupied@ =~= spec_cleared(cur, 0));
            }
        } else {
            assert(score <= 21000) by (nonlinear_arith)
                requires
                    score == 50 * (combo - 1) * combo,
                    1 <= combo <= 21,
            ;
        }
    } else {
        assert(score <= 21000) by (nonlinear_arith)
            requires
                score == 50 * (combo - 1) * combo,
                1 <= combo <= 21,
        ;
    }
    score
}

} // verus!
