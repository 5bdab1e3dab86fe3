//! Entity kinds, the row-major cell indexing of the fixed grid, and the
//! read-only occupancy snapshot a behavior program is evaluated against.

use vstd::prelude::*;
use crate::geometry::{Cords, in_bounds, COLUMNS, ROWS};

verus! {

/// The closed set of entity variants. `Bullet` carries whether the
/// projectile travels downward (toward the player).
#[derive(Clone, Copy, PartialEq, Eq, Structural, Debug)]
pub enum ShipKind {
    Fly,
    TikiFly,
    NorthropFly,
    B2Fly,
    Bullet(bool),
    Explosion,
}

/// Whether the kind is one of the enemy tiers.
pub open spec fn is_enemy(k: ShipKind) -> bool {
    match k {
        ShipKind::Fly | ShipKind::TikiFly | ShipKind::NorthropFly | ShipKind::B2Fly => true,
        _ => false,
    }
}

/// Whether the kind is a projectile.
pub open spec fn is_bullet(k: ShipKind) -> bool {
    match k {
        ShipKind::Bullet(_) => true,
        _ => false,
    }
}

/// The score credited for destroying an entity of this kind; zero for
/// anything that is not an enemy.
pub open spec fn score_of(k: ShipKind) -> u32 {
    match k {
        ShipKind::Fly => 100u32,
        ShipKind::TikiFly => 150u32,
        ShipKind::NorthropFly => 200u32,
        ShipKind::B2Fly => 300u32,
        _ => 0u32,
    }
}

impl ShipKind {
    /// Whether the kind is one of the enemy tiers.
    pub fn is_enemy_kind(&self) -> (r: bool)
        ensures
            r == is_enemy(*self),
    {
        match self {
            ShipKind::Fly | ShipKind::TikiFly | ShipKind::NorthropFly | ShipKind::B2Fly => true,
            _ => false,
        }
    }

    /// Whether the kind is a projectile.
    pub fn is_bullet_kind(&self) -> (r: bool)
        ensures
            r == is_bullet(*self),
    {
        match self {
            ShipKind::Bullet(_) => true,
            _ => false,
        }
    }

    /// The score credited for destroying an entity of this kind.
    pub fn score_value(&self) -> (r: u32)
        ensures
            r == score_of(*self),
    {
        match self {
            ShipKind::Fly => 100,
            ShipKind::TikiFly => 150,
            ShipKind::NorthropFly => 200,
            ShipKind::B2Fly => 300,
            _ => 0,
        }
    }
}

/// The row-major index of a cell.
pub open spec fn cell_index_spec(c: Cords) -> int {
    c.0 * (COLUMNS as int) + c.1
}

/// The number of cells of the grid's backing storage.
pub fn grid_cell_count() -> (n: usize)
    ensures
        n == ROWS * COLUMNS,
{
    ROWS * COLUMNS
}

/// The row-major index of an in-bounds cell fits in the grid's backing
/// storage of `ROWS * COLUMNS` slots.
pub fn cell_index(c: Cords) -> (i: usize)
    requires
        in_bounds(c),
    ensures
        i == cell_index_spec(c),
        i < ROWS * COLUMNS,
{
    proof {
        lemma_cell_index_bounds(c);
    }
    c.0 * COLUMNS + c.1
}

/// The row-major index of an in-bounds cell lies within the grid's
/// backing storage.
pub proof fn lemma_cell_index_bounds(c: Cords)
    requires
        in_bounds(c),
    ensures
        0 <= cell_index_spec(c) < ROWS * COLUMNS,
{
    assert(0 <= c.0 * (COLUMNS as int) + c.1 < (ROWS as int) * (COLUMNS as int))
        by (nonlinear_arith)
        requires
            c.0 < ROWS && c.1 < COLUMNS,
    ;
}

/// Distinct in-bounds cells have distinct row-major indices.
pub proof fn lemma_cell_index_injective(a: Cords, b: Cords)
    requires
        in_bounds(a),
        in_bounds(b),
        cell_index_spec(a) == cell_index_spec(b),
    ensures
        a == b,
{
    assert(a.0 == b.0 && a.1 == b.1) by (nonlinear_arith)
        requires
            a.0 < ROWS && a.1 < COLUMNS && b.0 < ROWS && b.1 < COLUMNS,
            a.0 * (COLUMNS as int) + a.1 == b.0 * (COLUMNS as int) + b.1,
    ;
}

/// A read-only occupancy snapshot of the grid: the kind of the occupant
/// of each cell, in row-major order. During the snapshot phase the entry
/// of the entity under evaluation is cleared, so an entity never sees
/// itself on the board.
#[derive(Clone, Debug)]
pub struct Board {
    pub kinds: Vec<Option<ShipKind>>,
}

/// The snapshot covers exactly the grid's cells.
pub open spec fn board_wf(b: Board) -> bool {
    b.kinds.len() == ROWS * COLUMNS
}

/// Whether an enemy occupies the cell.
pub open spec fn enemy_at(b: Board, c: Cords) -> bool {
    match b.spec_at(c) {
        Some(k) => is_enemy(k),
        None => false,
    }
}

/// Whether some enemy occupies the column of `c`, strictly below `c`.
pub open spec fn enemy_below_spec(b: Board, c: Cords) -> bool {
    exists|row: usize| c.0 < row < ROWS && #[trigger] enemy_at(b, Cords(row, c.1))
}

impl Board {
    /// The occupant kind of a cell; out-of-bounds cells are empty.
    pub open spec fn spec_at(self, c: Cords) -> Option<ShipKind> {
        if in_bounds(c) {
            self.kinds[cell_index_spec(c)]
        } else {
            None
        }
    }

    /// An empty snapshot.
    pub fn new() -> (b: Board)
        ensures
            board_wf(b),
            forall|c: Cords| b.spec_at(c) is None,
    {
        let cap: usize = grid_cell_count();
        let mut kinds: Vec<Option<ShipKind>> = Vec::new();
        let mut i: usize = 0;
        while i < cap
            invariant
                i <= cap,
                kinds.len() == i,
                forall|j: int| 0 <= j < i ==> kinds[j] is None,
            decreases cap - i,
        {
            kinds.push(None);
            i = i + 1;
        }
        let b = Board { kinds };
        proof {
            assert forall|c: Cords| b.spec_at(c) is None by {
                if in_bounds(c) {
                    lemma_cell_index_bounds(c);
                }
            }
        }
        b
    }

    /// The occupant kind of a cell.
    pub fn at(&self, c: Cords) -> (r: Option<ShipKind>)
        requires
            board_wf(*self),
        ensures
            r == self.spec_at(c),
    {
        if c.0 < ROWS && c.1 < COLUMNS {
            let i = cell_index(c);
            self.kinds[i]
        } else {
            None
        }
    }

    /// Whether the cell is occupied.
    pub fn occupied(&self, c: Cords) -> (r: bool)
        requires
            board_wf(*self),
        ensures
            r == (self.spec_at(c) is Some),
    {
        self.at(c).is_some()
    }

    /// Record the occupant kind of an in-bounds cell.
    pub fn set(&mut self, c: Cords, k: Option<ShipKind>)
        requires
            board_wf(*old(self)),
            in_bounds(c),
        ensures
            board_wf(*final(self)),
            final(self).spec_at(c) == k,
            forall|d: Cords| d != c ==> final(self).spec_at(d) == old(self).spec_at(d),
    {
        let i = cell_index(c);
        self.kinds[i] = k;

        proof {
            assert forall|d: Cords| d != c implies self.spec_at(d) == old(self).spec_at(d) by {
                if in_bounds(d) {
                    lemma_cell_index_bounds(d);
                    if cell_index_spec(d) == cell_index_spec(c) {
                        lemma_cell_index_injective(d, c);
                    }
                }
            }
        }
    }

    /// Whether some enemy occupies the column of `c`, strictly below `c`.
    pub fn enemy_below(&self, c: Cords) -> (r: bool)
        requires
            board_wf(*self),
        ensures
            r == enemy_below_spec(*self, c),
    {
        if c.0 >= ROWS {
            return false;
        }
        let mut row: usize = c.0 + 1;
        while row < ROWS
            invariant
                board_wf(*self),
                c.0 < row <= ROWS,
                forall|j: usize| c.0 < j < row ==> !(#[trigger] enemy_at(*self, Cords(j, c.1))),
            decreases ROWS - row,
        {
            match self.at(Cords(row, c.1)) {
                Some(k) => {
                    if k.is_enemy_kind() {
                        proof {
                            assert(enemy_at(*self, Cords(row, c.1)));
                        }
                        return true;
                    }
                },
                None => {},
            }
            row = row + 1;
        }
        false
    }
}

} // verus!
