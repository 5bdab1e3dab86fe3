//! The formation generator: deterministic, level-tiered enemy layouts in
//! a diamond shape around the grid's middle column, with filler
//! positions cycling through the difficulty tiers.

use vstd::prelude::*;
use rand::rngs::StdRng;
use crate::board::{
    cell_index, cell_index_spec, grid_cell_count, lemma_cell_index_bounds, ShipKind,
};
use crate::grid::{
    lemma_occupied_count_none, lemma_occupied_count_update, occupied_count, occupied_count_to,
};
use crate::external::rng_from_seed;
use crate::geometry::{in_bounds, Cords, COLUMNS, ROWS};
use crate::ship::{
    is_new_enemy_ship, new_b2_fly_ship, new_fly_ship, new_northrop_fly_ship, new_tiki_fly_ship,
    ship_wf, Ship,
};

verus! {

/// How many positions the formation offers: the ten diamond cells plus
/// two full filler rows.
pub open spec fn formation_capacity() -> int {
    10 + 2 * (COLUMNS as int)
}

/// The `i`-th position of the formation: the apex on the top row at the
/// middle column, a three-wide second tier, a two-wide third tier, a
/// four-wide fourth tier, then filler positions walking the rows below
/// the diamond.
pub open spec fn formation_pos(i: int) -> Cords {
    let mid = COLUMNS as int / 2;
    if i == 0 {
        Cords(0, mid as usize)
    } else if 1 <= i <= 3 {
        Cords(1, (mid - 2 + i) as usize)
    } else if i == 4 {
        Cords(2, (mid - 1) as usize)
    } else if i == 5 {
        Cords(2, (mid + 1) as usize)
    } else if 6 <= i <= 7 {
        Cords(3, (mid - 2 + (i - 6)) as usize)
    } else if 8 <= i <= 9 {
        Cords(3, (mid + 1 + (i - 8)) as usize)
    } else {
        Cords((4 + (i - 10) / (COLUMNS as int)) as usize, ((i - 10) % (COLUMNS as int)) as usize)
    }
}

/// The difficulty tier of the `i`-th formation position: the apex is the
/// strongest, the rings weaken outward, and the filler cycles through
/// all four tiers.
pub open spec fn formation_tier(i: int) -> u32 {
    if i == 0 {
        3u32
    } else if 1 <= i <= 3 {
        2u32
    } else if 4 <= i <= 5 {
        1u32
    } else if 6 <= i <= 9 {
        0u32
    } else {
        (((i - 10) % 4) as u32)
    }
}

/// The enemy kind a tier yields at a level: tier zero is always the
/// weakest enemy; the stronger tiers upgrade only once the level has
/// reached their threshold, and downgrade to the weakest kind below it.
pub open spec fn kind_for_tier(tier: u32, level: u32) -> ShipKind {
    if tier == 1 && level >= 2 {
        ShipKind::TikiFly
    } else if tier == 2 && level >= 3 {
        ShipKind::NorthropFly
    } else if tier == 3 && level >= 4 {
        ShipKind::B2Fly
    } else {
        ShipKind::Fly
    }
}

/// How many entities a request for `fly_count` actually places.
pub open spec fn spawn_count(fly_count: u32) -> int {
    if fly_count as int <= formation_capacity() {
        fly_count as int
    } else {
        formation_capacity()
    }
}

/// The cell index `j` is one of the first `n` formation positions.
pub open spec fn formation_slot(j: int, n: int) -> bool {
    exists|i: int| 0 <= i < n && cell_index_spec(#[trigger] formation_pos(i)) == j
}

/// The cells hold exactly the formation a request for `fly_count`
/// enemies yields at `level`: the first `spawn_count` formation
/// positions hold fresh enemies of their tiers' kinds, every other cell
/// is empty.
pub open spec fn is_formation_of(cells: Seq<Option<Ship>>, fly_count: u32, level: u32) -> bool {
    &&& cells.len() == ROWS * COLUMNS
    &&& forall|i: int|
        0 <= i < spawn_count(fly_count) ==> (match cells[cell_index_spec(
            #[trigger] formation_pos(i),
        )] {
            Some(s) => is_new_enemy_ship(s, kind_for_tier(formation_tier(i), level)),
            None => false,
        })
    &&& forall|j: int|
        0 <= j < cells.len() && !formation_slot(j, spawn_count(fly_count)) ==> cells[j] is None
}

/// A level count, saturating at the counter's maximum.
pub open spec fn level_up(level: u32) -> u32 {
    if level == u32::MAX {
        level
    } else {
        (level + 1) as u32
    }
}

/// The number of enemies a level is owed: the base count plus the level,
/// saturating at the counter's maximum.
pub open spec fn fly_count_spec(base: u32, level: u32) -> u32 {
    if base + level > u32::MAX {
        u32::MAX
    } else {
        (base + level) as u32
    }
}

/// Every formation position lies on the grid, and its cell index is the
/// position's rank shifted into its segment's range, so distinct ranks
/// give distinct cells.
pub proof fn lemma_formation_pos_bounds(i: int)
    requires
        0 <= i < formation_capacity(),
    ensures
        in_bounds(formation_pos(i)),
        i >= 10 ==> cell_index_spec(formation_pos(i)) == i + 54,
        i < 10 ==> cell_index_spec(formation_pos(i)) < 64,
{
    if i >= 10 {
        let c = COLUMNS as int;
        assert((4 + (i - 10) / c) * c + (i - 10) % c == i + 54 && 0 <= (i - 10) % c < c && 4 <= 4
            + (i - 10) / c < ROWS as int) by (nonlinear_arith)
            requires
                c == 16,
                10 <= i < 42,
        ;
    }
}

/// Distinct formation positions occupy distinct cells.
pub proof fn lemma_formation_injective(i: int, j: int)
    requires
        0 <= i < formation_capacity(),
        0 <= j < formation_capacity(),
        i != j,
    ensures
        cell_index_spec(formation_pos(i)) != cell_index_spec(formation_pos(j)),
{
    lemma_formation_pos_bounds(i);
    lemma_formation_pos_bounds(j);
}

/// The formation generator: the current level, the base enemy count,
/// and a generator reseeded deterministically from the level, so the
/// same level always yields the same formation.
pub struct FlySpawner {
    pub cols: usize,
    pub current_level: u32,
    pub flies_per_level_base: u32,
    pub rng: StdRng,
}

impl FlySpawner {
    /// A generator at level one with the base seed.
    pub fn new() -> (sp: FlySpawner)
        ensures
            sp.current_level == 1,
            sp.flies_per_level_base == 10,
    {
        FlySpawner {
            cols: COLUMNS,
            current_level: 1,
            flies_per_level_base: 10,
            rng: rng_from_seed(42),
        }
    }

    /// A fresh enemy of the given tier at the current level.
    pub fn get_ship_for_level(&self, tier: u32) -> (s: Ship)
        ensures
            is_new_enemy_ship(s, kind_for_tier(tier, self.current_level)),
            ship_wf(s),
    {
        if tier == 1 && self.current_level >= 2 {
            new_tiki_fly_ship()
        } else if tier == 2 && self.current_level >= 3 {
            new_northrop_fly_ship()
        } else if tier == 3 && self.current_level >= 4 {
            new_b2_fly_ship()
        } else {
            new_fly_ship()
        }
    }

    /// The tier of the `i`-th formation position.
    fn tier_of_position(&self, i: usize) -> (t: u32)
        requires
            i < formation_capacity(),
        ensures
            t == formation_tier(i as int),
    {
        if i == 0 {
            3
        } else if i <= 3 {
            2
        } else if i <= 5 {
            1
        } else if i <= 9 {
            0
        } else {
            ((i - 10) % 4) as u32
        }
    }

    /// The `i`-th formation position.
    fn position_of(&self, i: usize) -> (c: Cords)
        requires
            i < formation_capacity(),
        ensures
            c == formation_pos(i as int),
            in_bounds(c),
    {
        proof {
            lemma_formation_pos_bounds(i as int);
        }
        let mid = COLUMNS / 2;
        if i == 0 {
            Cords(0, mid)
        } else if i <= 3 {
            Cords(1, mid - 2 + i)
        } else if i == 4 {
            Cords(2, mid - 1)
        } else if i == 5 {
            Cords(2, mid + 1)
        } else if i <= 7 {
            Cords(3, mid - 2 + (i - 6))
        } else if i <= 9 {
            Cords(3, mid + 1 + (i - 8))
        } else {
            Cords(4 + (i - 10) / COLUMNS, (i - 10) % COLUMNS)
        }
    }

    /// Lay out a formation of at most `fly_count` enemies (capped at the
    /// formation's capacity): the first `spawn_count` formation
    /// positions hold fresh enemies of their tiers' kinds at the current
    /// level, and every other cell is empty.
    pub fn spawn_flies(&mut self, fly_count: u32) -> (cells: Vec<Option<Ship>>)
        ensures
            *final(self) == *old(self),
            cells@.len() == ROWS * COLUMNS,
            forall|j: int|
                0 <= j < cells@.len() ==> (match #[trigger] cells@[j] {
                    Some(s) => ship_wf(s),
                    None => true,
                }),
            is_formation_of(cells@, fly_count, old(self).current_level),
            occupied_count(cells@) == spawn_count(fly_count),
    {
        let cap = grid_cell_count();
        let mut cells: Vec<Option<Ship>> = Vec::new();
        let mut k: usize = 0;
        while k < cap
            invariant
                k <= cap,
                cells.len() == k,
                forall|j: int| 0 <= j < k ==> cells[j] is None,
            decreases cap - k,
        {
            cells.push(None);
            k = k + 1;
        }

        let n: usize = if fly_count as usize <= 10 + 2 * COLUMNS {
            fly_count as usize
        } else {
            10 + 2 * COLUMNS
        };

        proof {
            lemma_occupied_count_none(cells@, cells@.len() as int);
        }
        let mut i: usize = 0;
        while i < n
            invariant
                i <= n,
                n == spawn_count(fly_count),
                cells.len() == ROWS * COLUMNS,
                occupied_count_to(cells@, cells@.len() as int) == i,
                *self == *old(self),
                forall|j: int|
                    0 <= j < cells@.len() ==> (match #[trigger] cells@[j] {
                        Some(s) => ship_wf(s),
                        None => true,
                    }),
                forall|ii: int|
                    0 <= ii < i ==> (match cells@[cell_index_spec(#[trigger] formation_pos(ii))] {
                        Some(s) => is_new_enemy_ship(
                            s,
                            kind_for_tier(formation_tier(ii), old(self).current_level),
                        ),
                        None => false,
                    }),
                forall|j: int|
                    0 <= j < cells@.len() && !formation_slot(j, i as int) ==> cells@[j] is None,
            decreases n - i,
        {
            let c = self.position_of(i);
            let tier = self.tier_of_position(i);
            let ship = self.get_ship_for_level(tier);
            proof {
                lemma_formation_pos_bounds(i as int);
                lemma_cell_index_bounds(c);
            }
            let idx = cell_index(c);
            let ghost prev = cells@;
            proof {
                assert(!formation_slot(idx as int, i as int)) by {
                    if formation_slot(idx as int, i as int) {
                        let ii = choose|k: int|
                            0 <= k < i && cell_index_spec(#[trigger] formation_pos(k)) == idx as int;
                        lemma_formation_injective(ii, i as int);
                    }
                }
                assert(cells@[idx as int] is None);
                lemma_occupied_count_update(cells@, idx as int, ship, cells@.len() as int);
            }
            cells[idx] = Some(ship);
            proof {
                assert forall|ii: int|
                    0 <= ii < i + 1 implies (match cells@[cell_index_spec(
                    #[trigger] formation_pos(ii),
                )] {
                    Some(s) => is_new_enemy_ship(
                        s,
                        kind_for_tier(formation_tier(ii), old(self).current_level),
                    ),
                    None => false,
                }) by {
                    lemma_formation_pos_bounds(ii);
                    lemma_cell_index_bounds(formation_pos(ii));
                    if ii < i {
                        lemma_formation_injective(ii, i as int);
                        assert(cells@[cell_index_spec(formation_pos(ii))] == prev[cell_index_spec(
                            formation_pos(ii),
                        )]);
                    }
                }
                assert forall|j: int|
                    0 <= j < cells@.len() && !formation_slot(j, i as int + 1) implies cells@[j]
                    is None by {
                    if j != cell_index_spec(formation_pos(i as int)) {
                        assert(!formation_slot(j, i as int));
                    }
                }
            }
            i = i + 1;
        }
        cells
    }

    /// Advance to the next level: the level counter steps up, the
    /// generator is reseeded deterministically from the new level, and
    /// the new formation holds the base count plus the new level.
    pub fn spawn_next_level(&mut self) -> (cells: Vec<Option<Ship>>)
        ensures
            final(self).current_level == level_up(old(self).current_level),
            final(self).flies_per_level_base == old(self).flies_per_level_base,
            cells@.len() == ROWS * COLUMNS,
            forall|j: int|
                0 <= j < cells@.len() ==> (match #[trigger] cells@[j] {
                    Some(s) => ship_wf(s),
                    None => true,
                }),
            is_formation_of(
                cells@,
                fly_count_spec(old(self).flies_per_level_base, final(self).current_level),
                final(self).current_level,
            ),
            occupied_count(cells@) == spawn_count(
                fly_count_spec(old(self).flies_per_level_base, final(self).current_level),
            ),
    {
        self.current_level = if self.current_level == u32::MAX {
            u32::MAX
        } else {
            self.current_level + 1
        };

        let seed: u64 = 42u64 + self.current_level as u64;
        self.rng = rng_from_seed(seed);

        let fly_count = self.flies_per_level_base.saturating_add(self.current_level);
        self.spawn_flies(fly_count)
    }

    /// Back to level one with the base seed.
    pub fn reset_level(&mut self)
        ensures
            final(self).current_level == 1,
            final(self).flies_per_level_base == old(self).flies_per_level_base,
    {
        self.current_level = 1;
        self.rng = rng_from_seed(42);
    }

    /// The number of enemies the current level is owed.
    pub fn get_current_fly_count(&self) -> (n: u32)
        ensures
            n == fly_count_spec(self.flies_per_level_base, self.current_level),
    {
        self.flies_per_level_base.saturating_add(self.current_level)
    }
}

} // verus!
