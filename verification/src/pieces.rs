//! The seven tetromino shapes and the rotation transform.

use vstd::prelude::*;
use crate::geometry::Point;

verus! {

/// A tetromino: four offsets around an implicit pivot at (0, 0), and a flag
/// saying whether 90-degree rotation applies (false only for the square).
#[derive(Clone, Copy, Debug, PartialEq, Eq)]
pub struct Tetromino {
    pub blocks: [Point; 4],
    pub rotatable: bool,
}

/// Every catalog offset is small; rotation keeps it so. This is the validity
/// bound the engine relies on to rule out arithmetic overflow.
pub open spec fn wf_offset(p: Point) -> bool {
    -2 <= p.x <= 2 && -2 <= p.y <= 2
}

/// A well-formed piece: all four offsets stay within the catalog bound.
pub open spec fn wf_piece(t: Tetromino) -> bool {
    forall|i: int| 0 <= i < 4 ==> wf_offset(#[trigger] t.blocks[i])
}

pub open spec fn spec_piece_i() -> Tetromino {
    Tetromino {
        blocks: [
            Point { x: 0, y: 0 },
            Point { x: 1, y: 0 },
            Point { x: 2, y: 0 },
            Point { x: (-1) as i32, y: 0 },
        ],
        rotatable: true,
    }
}

pub open spec fn spec_piece_j() -> Tetromino {
    Tetromino {
        blocks: [
            Point { x: 0, y: 0 },
            Point { x: 1, y: 0 },
            Point { x: (-1) as i32, y: (-1) as i32 },
            Point { x: (-1) as i32, y: 0 },
        ],
        rotatable: true,
    }
}

pub open spec fn spec_piece_l() -> Tetromino {
    Tetromino {
        blocks: [
            Point { x: 0, y: 0 },
            Point { x: 1, y: 0 },
            Point { x: 1, y: (-1) as i32 },
            Point { x: (-1) as i32, y: 0 },
        ],
        rotatable: true,
    }
}

pub open spec fn spec_piece_o() -> Tetromino {
    Tetromino {
        blocks: [
            Point { x: 0, y: 0 },
            Point { x: 1, y: 0 },
            Point { x: 1, y: (-1) as i32 },
            Point { x: 0, y: (-1) as i32 },
        ],
        rotatable: false,
    }
}

pub open spec fn spec_piece_s() -> Tetromino {
    Tetromino {
        blocks: [
            Point { x: 0, y: 0 },
            Point { x: 0, y: (-1) as i32 },
            Point { x: 1, y: (-1) as i32 },
            Point { x: (-1) as i32, y: 0 },
        ],
        rotatable: true,
    }
}

pub open spec fn spec_piece_z() -> Tetromino {
    Tetromino {
        blocks: [
            Point { x: 0, y: 0 },
            Point { x: 0, y: (-1) as i32 },
            Point { x: 1, y: 0 },
            Point { x: (-1) as i32, y: (-1) as i32 },
        ],
        rotatable: true,
    }
}

pub open spec fn spec_piece_t() -> Tetromino {
    Tetromino {
        blocks: [
            Point { x: 0, y: 0 },
            Point { x: 0, y: (-1) as i32 },
            Point { x: 1, y: 0 },
            Point { x: (-1) as i32, y: 0 },
        ],
        rotatable: true,
    }
}

/// The draw order of the catalog; a uniformly random index selects a shape.
pub open spec fn spec_catalog(i: int) -> Tetromino {
    if i == 0 {
        spec_piece_t()
    } else if i == 1 {
        spec_piece_i()
    } else if i == 2 {
        spec_piece_j()
    } else if i == 3 {
        spec_piece_l()
    } else if i == 4 {
        spec_piece_s()
    } else if i == 5 {
        spec_piece_z()
    } else {
        spec_piece_o()
    }
}

/// Copy the catalog entry with the given index.
pub fn catalog(i: usize) -> (t: Tetromino)
    requires
        i < 7,
    ensures
        t == spec_catalog(i as int),
        wf_piece(t),
{
    let t = if i == 0 {
        Tetromino {
            blocks: [
                Point { x: 0, y: 0 },
                Point { x: 0, y: -1 },
                Point { x: 1, y: 0 },
                Point { x: -1, y: 0 },
            ],
            rotatable: true,
        }
    } else if i == 1 {
        Tetromino {
            blocks: [
                Point { x: 0, y: 0 },
                Point { x: 1, y: 0 },
                Point { x: 2, y: 0 },
                Point { x: -1, y: 0 },
            ],
            rotatable: true,
        }
    } else if i == 2 {
        Tetromino {
            blocks: [
                Point { x: 0, y: 0 },
                Point { x: 1, y: 0 },
                Point { x: -1, y: -1 },
                Point { x: -1, y: 0 },
            ],
            rotatable: true,
        }
    } else if i == 3 {
        Tetromino {
            blocks: [
                Point { x: 0, y: 0 },
                Point { x: 1, y: 0 },
                Point { x: 1, y: -1 },
                Point { x: -1, y: 0 },
            ],
            rotatable: true,
        }
    } else if i == 4 {
        Tetromino {
            blocks: [
                Point { x: 0, y: 0 },
                Point { x: 0, y: -1 },
                Point { x: 1, y: -1 },
                Point { x: -1, y: 0 },
            ],
            rotatable: true,
        }
    } else if i == 5 {
        Tetromino {
            blocks: [
                Point { x: 0, y: 0 },
                Point { x: 0, y: -1 },
                Point { x: 1, y: 0 },
                Point { x: -1, y: -1 },
            ],
            rotatable: true,
        }
    } else {
        Tetromino {
            blocks: [
                Point { x: 0, y: 0 },
                Point { x: 1, y: 0 },
                Point { x: 1, y: -1 },
                Point { x: 0, y: -1 },
            ],
            rotatable: false,
        }
    };
    proof {
        assert(forall|k: int| 0 <= k < 4 ==> wf_offset(#[trigger] t.blocks[k]));
    }
    t
}

/// The 90-degree rotation of one offset: (x, y) becomes (y, -x).
pub open spec fn spec_rotate_point(p: Point) -> Point {
    Point { x: p.y, y: (0 - p.x as int) as i32 }
}

/// The rotated piece: each offset turned 90 degrees, the flag kept.
pub open spec fn spec_rotated(t: Tetromino) -> Tetromino {
    Tetromino {
        blocks: [
            spec_rotate_point(t.blocks[0]),
            spec_rotate_point(t.blocks[1]),
            spec_rotate_point(t.blocks[2]),
            spec_rotate_point(t.blocks[3]),
        ],
        rotatable: t.rotatable,
    }
}

/// Build the rotation of a well-formed piece.
pub fn rotated(t: &Tetromino) -> (r: Tetromino)
    requires
        wf_piece(*t),
    ensures
        r == spec_rotated(*t),
        wf_piece(r),
{
    let r = Tetromino {
        blocks: [
            Point { x: t.blocks[0].y, y: -t.blocks[0].x },
            Point { x: t.blocks[1].y, y: -t.blocks[1].x },
            Point { x: t.blocks[2].y, y: -t.blocks[2].x },
            Point { x: t.blocks[3].y, y: -t.blocks[3].x },
        ],
        rotatable: t.rotatable,
    };
    proof {
        assert(forall|k: int| 0 <= k < 4 ==> wf_offset(#[trigger] r.blocks[k]));
    }
    r
}

/// Rotating twice maps each offset (x, y) to (-x, -y): a 180-degree turn.
pub proof fn lemma_rotate_twice(t: Tetromino)
    requires
        wf_piece(t),
    ensures
        forall|i: int| 0 <= i < 4 ==> (#[trigger] spec_rotated(spec_rotated(t)).blocks[i]).x
            == -t.blocks[i].x && spec_rotated(spec_rotated(t)).blocks[i].y == -t.blocks[i].y,
{
    assert forall|i: int| 0 <= i < 4 implies (#[trigger] spec_rotated(spec_rotated(t)).blocks[i]).x
        == -t.blocks[i].x && spec_rotated(spec_rotated(t)).blocks[i].y == -t.blocks[i].y by {
        assert(wf_offset(t.blocks[i]));
    }
}

} // verus!
