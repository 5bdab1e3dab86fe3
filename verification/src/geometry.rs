//! Grid coordinates, signed relative offsets with edge-wrap evaluation,
//! and the per-tick effect an entity's behavior program can yield.

use vstd::prelude::*;

verus! {

/// Base size of the playing field; the grid is derived from it.
pub const SIZE: usize = 10;

/// Number of rows of the grid; rows are indexed `0 .. ROWS`.
pub const ROWS: usize = SIZE + 2;

/// Number of columns of the grid; columns are indexed `0 .. COLUMNS`.
pub const COLUMNS: usize = SIZE + 6;

/// An absolute grid cell: `(row, col)` with row in `[0, ROWS)` and
/// col in `[0, COLUMNS)` when in bounds.
#[derive(Clone, Copy, PartialEq, Eq, Structural, Debug)]
pub struct Cords(pub usize, pub usize);

/// A cell is a valid position of the fixed-size grid.
pub open spec fn in_bounds(c: Cords) -> bool {
    c.0 < ROWS && c.1 < COLUMNS
}

/// A signed relative offset `(delta row, delta col)`.
#[derive(Clone, Copy, PartialEq, Eq, Structural, Debug)]
pub struct RelCords(pub i32, pub i32);

/// One coordinate after edge wrapping: a value that falls below `0` is
/// clamped to the opposite edge `bound - 1`, one that reaches `bound`
/// is clamped to `0`.
pub open spec fn wrap_coord(v: int, bound: int) -> int {
    if v < 0 {
        bound - 1
    } else if v >= bound {
        0
    } else {
        v
    }
}

/// Whether the unclamped coordinate would fall outside `[0, bound)`.
pub open spec fn coord_wraps(v: int, bound: int) -> bool {
    v < 0 || v >= bound
}

/// The cell reached from `c` by offset `o`, with both coordinates wrapped.
pub open spec fn wrapped_target(o: RelCords, c: Cords) -> Cords {
    Cords(
        wrap_coord(c.0 + o.0, ROWS as int) as usize,
        wrap_coord(c.1 + o.1, COLUMNS as int) as usize,
    )
}

/// Whether moving from `c` by `o` crosses a grid edge on either axis.
pub open spec fn target_wraps(o: RelCords, c: Cords) -> bool {
    coord_wraps(c.0 + o.0, ROWS as int) || coord_wraps(c.1 + o.1, COLUMNS as int)
}

impl RelCords {
    /// Evaluate the offset against a position: the returned position is
    /// always in bounds, and the flag is true exactly when the unclamped
    /// target would have fallen outside the grid on either axis.
    pub fn evaluate(&self, cords: Cords) -> (r: (Cords, bool))
        requires
            in_bounds(cords),
        ensures
            in_bounds(r.0),
            r.0 == wrapped_target(*self, cords),
            r.1 == target_wraps(*self, cords),
    {
        let raw_row: i64 = cords.0 as i64 + self.0 as i64;
        let raw_col: i64 = cords.1 as i64 + self.1 as i64;

        let mut wrapped = false;

        let row: usize = if raw_row < 0 {
            wrapped = true;
            ROWS - 1
        } else if raw_row >= ROWS as i64 {
            wrapped = true;
            0
        } else {
            raw_row as usize
        };

        let col: usize = if raw_col < 0 {
            wrapped = true;
            COLUMNS - 1
        } else if raw_col >= COLUMNS as i64 {
            wrapped = true;
            0
        } else {
            raw_col as usize
        };

        (Cords(row, col), wrapped)
    }
}

/// The single effect a behavior program yields for the current tick.
/// `Move` carries the target cell and whether the move crossed a grid
/// edge (wrapped).
#[derive(Clone, Copy, PartialEq, Eq, Structural, Debug)]
pub enum ShipAction {
    Nothing,
    Remove,
    Shoot,
    Move(Cords, bool),
}

} // verus!
