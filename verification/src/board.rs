//! The fixed 20x10 occupancy grid: cell access, row tests, clearing and
//! the downward shift that compacts the stack after a clear.

use vstd::prelude::*;
use crate::geometry::Point;
use crate::geometry::spec_inside_screen;

verus! {

/// A row is full when every one of its cells is occupied.
pub open spec fn spec_row_full(r: Seq<bool>) -> bool {
    forall|j: int| 0 <= j < r.len() ==> r[j]
}

/// A row is empty when none of its cells is occupied.
pub open spec fn spec_row_empty(r: Seq<bool>) -> bool {
    forall|j: int| 0 <= j < r.len() ==> !r[j]
}

/// A freshly cleared row: ten unoccupied cells.
pub open spec fn spec_empty_row() -> Seq<bool> {
    Seq::new(10, |j: int| false)
}

/// The occupancy grid. Viewed as a sequence of 20 rows of 10 booleans;
/// a cell is true iff a locked block occupies it.
pub struct Board {
    rows: Vec<Vec<bool>>,
}

impl View for Board {
    type V = Seq<Seq<bool>>;

    closed spec fn view(&self) -> Seq<Seq<bool>> {
        self.rows@.map_values(|r: Vec<bool>| r@)
    }
}

impl Board {
    /// Connects the abstract view to the underlying vector of rows.
    proof fn lemma_view(&self)
        ensures
            self@.len() == self.rows@.len(),
            forall|i: int| 0 <= i < self.rows@.len() ==> self@[i] == (#[trigger] self.rows@[i])@,
    {
    }

    /// Shape invariant: 20 rows of 10 cells each.
    pub open spec fn wf(self) -> bool {
        self@.len() == 20 && forall|i: int| 0 <= i < 20 ==> (#[trigger] self@[i]).len() == 10
    }

    /// A board with every cell unoccupied.
    pub fn new() -> (b: Board)
        ensures
            b.wf(),
            forall|i: int| 0 <= i < 20 ==> spec_row_empty(#[trigger] b@[i]),
    {
        let mut rows: Vec<Vec<bool>> = Vec::new();
        let mut i: usize = 0;
        while i < 20
            invariant
                i <= 20,
                rows@.len() == i as int,
                forall|k: int| 0 <= k < i as int ==> (#[trigger] rows@[k])@.len() == 10,
                forall|k: int, j: int| 0 <= k < i as int && 0 <= j < 10 ==> !(#[trigger] rows@[k]@[j]),
            decreases 20 - i,
        {
            rows.push(empty_row());
            i += 1;
        }
        let b = Board { rows };
        proof {
            assert(forall|k: int| 0 <= k < 20 ==> (#[trigger] b@[k]).len() == 10);
            assert forall|k: int| 0 <= k < 20 implies spec_row_empty(#[trigger] b@[k]) by {
                assert(b@[k] == rows@[k]@);
            }
        }
        b
    }

    /// Read the cell under a point (x column, y row); the caller has
    /// already validated the coordinates.
    pub fn get(&self, p: &Point) -> (r: bool)
        requires
            self.wf(),
            spec_inside_screen(p.x as int, p.y as int),
        ensures
            r == self@[p.y as int][p.x as int],
    {
        proof {
            self.lemma_view();
        }
        self.rows[p.y as usize][p.x as usize]
    }

    /// Write the cell under a point; the caller has already validated the
    /// coordinates.
    pub fn set(&mut self, p: &Point, v: bool)
        requires
            old(self).wf(),
            spec_inside_screen(p.x as int, p.y as int),
        ensures
            final(self).wf(),
            final(self)@ == old(self)@.update(
                p.y as int,
                old(self)@[p.y as int].update(p.x as int, v),
            ),
    {
        let ghost before = self@;
        proof {
            self.lemma_view();
        }
        let y = p.y as usize;
        let x = p.x as usize;
        let mut row = self.rows.remove(y);
        row.set(x, v);
        self.rows.insert(y, row);
        proof {
            self.lemma_view();
            assert(self@ =~= before.update(p.y as int, before[p.y as int].update(p.x as int, v)));
        }
    }

    /// Is the given row completely occupied?
    pub fn row_full(&self, y: usize) -> (r: bool)
        requires
            self.wf(),
            y < 20,
        ensures
            r == spec_row_full(self@[y as int]),
    {
        proof {
            self.lemma_view();
        }
        let row: &Vec<bool> = &self.rows[y];
        let mut j: usize = 0;
        let mut all: bool = true;
        while j < 10
            invariant
                row@.len() == 10,
                j <= 10,
                all == (forall|k: int| 0 <= k < j as int ==> row@[k]),
            decreases 10 - j,
        {
            if !row[j] {
                all = false;
            }
            j += 1;
        }
        all
    }

    /// Is the given row completely unoccupied?
    pub fn row_empty(&self, y: usize) -> (r: bool)
        requires
            self.wf(),
            y < 20,
        ensures
            r == spec_row_empty(self@[y as int]),
    {
        proof {
            self.lemma_view();
        }
        let row: &Vec<bool> = &self.rows[y];
        let mut j: usize = 0;
        let mut none: bool = true;
        while j < 10
            invariant
                row@.len() == 10,
                j <= 10,
                none == (forall|k: int| 0 <= k < j as int ==> !row@[k]),
            decreases 10 - j,
        {
            if row[j] {
                none = false;
            }
            j += 1;
        }
        none
    }

    /// Set every cell of the given row to unoccupied.
    pub fn clear_row(&mut self, y: usize)
        requires
            old(self).wf(),
            y < 20,
        ensures
            final(self).wf(),
            final(self)@ == old(self)@.update(y as int, spec_empty_row()),
    {
        let ghost before = self@;
        proof {
            self.lemma_view();
        }
        let _removed = self.rows.remove(y);
        self.rows.insert(y, empty_row());
        proof {
            self.lemma_view();
            assert(self@ =~= before.update(y as int, spec_empty_row()));
        }
    }

    /// Shift rows 0..=k one step toward the bottom: row k's content is
    /// discarded, each row above it moves down one index, and a fresh
    /// all-unoccupied row becomes row 0.
    pub fn shift_down(&mut self, k: usize)
        requires
            old(self).wf(),
            k < 20,
        ensures
            final(self).wf(),
            final(self)@ == seq![spec_empty_row()] + old(self)@.subrange(0, k as int)
                + old(self)@.subrange(k as int + 1, 20),
    {
        let ghost before = self@;
        proof {
            self.lemma_view();
        }
        let _removed = self.rows.remove(k);
        self.rows.insert(0, empty_row());
        proof {
            self.lemma_view();
            assert(self@ =~= seq![spec_empty_row()] + before.subrange(0, k as int)
                + before.subrange(k as int + 1, 20));
        }
    }
}

/// Build one all-unoccupied row.
fn empty_row() -> (r: Vec<bool>)
    ensures
        r@ == spec_empty_row(),
{
    let mut r: Vec<bool> = Vec::new();
    let mut j: usize = 0;
    while j < 10
        invariant
            j <= 10,
            r@.len() == j as int,
            forall|k: int| 0 <= k < j as int ==> !r@[k],
        decreases 10 - j,
    {
        r.push(false);
        j += 1;
    }
    proof {
        assert(r@ =~= spec_empty_row());
    }
    r
}

} // verus!
