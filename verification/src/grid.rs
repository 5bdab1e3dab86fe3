//! The grid resolver: exclusive owner of the position-to-entity mapping
//! and the running score. Entities' decisions are computed from one
//! consistent snapshot of the board and applied afterwards under the
//! occupancy and collision rules.

use vstd::prelude::*;
use crate::behavior::ai_step_rel;
use crate::board::{
    board_wf, cell_index, cell_index_spec, grid_cell_count, is_bullet, is_enemy,
    lemma_cell_index_bounds, lemma_cell_index_injective, score_of, Board, ShipKind,
};
use crate::geometry::{in_bounds, Cords, ShipAction, COLUMNS, ROWS};
use crate::settings::Settings;
use crate::ship::{
    bullet_boundary_stuck, is_new_bullet_ship, is_new_explosion_ship, new_bullet_ship,
    new_explosion_ship, ship_wf, Ship,
};

verus! {

/// Why a move was a no-op: the target cell already holds an entity a
/// non-projectile may not displace, or the source cell holds nothing.
#[derive(Clone, Copy, PartialEq, Eq, Structural, Debug)]
pub enum GridError {
    TargetOccupied,
    SourceEmpty,
}

/// The grid: one optional entity per cell, in row-major order, and the
/// running score. The score only grows within a life cycle; clearing the
/// entities never touches it.
#[derive(Debug)]
pub struct ShipGrid {
    pub cells: Vec<Option<Ship>>,
    pub score: u32,
}

/// The grid covers exactly the fixed playing field and every entity it
/// holds is well formed.
pub open spec fn grid_wf(g: ShipGrid) -> bool {
    &&& g.cells.len() == ROWS * COLUMNS
    &&& forall|i: int|
        0 <= i < g.cells.len() ==> (match #[trigger] g.cells[i] {
            Some(s) => ship_wf(s),
            None => true,
        })
}

/// A score credit, saturating at the counter's maximum.
pub open spec fn add_score(s: u32, pts: u32) -> u32 {
    if s + pts > u32::MAX {
        u32::MAX
    } else {
        (s + pts) as u32
    }
}

/// The kind of an optional occupant.
pub open spec fn kind_opt(o: Option<Ship>) -> Option<ShipKind> {
    match o {
        Some(s) => Some(s.kind),
        None => None,
    }
}

/// The two grids hold the same entities and the same score.
pub open spec fn grid_same(pre: ShipGrid, post: ShipGrid) -> bool {
    post.score == pre.score && post.cells@ == pre.cells@
}

/// An enemy wrapping vertically may not cross the grid's midline: kept
/// behind this named predicate because the rule is preserved behavior,
/// not a load-bearing mechanic.
pub open spec fn fly_wrap_blocked(old_c: Cords, new_c: Cords) -> bool {
    old_c.0 < new_c.0 && old_c.0 < ROWS / 2 && new_c.0 > ROWS / 2
}

/// How one move relates the grid before (`pre`) and after (`post`).
/// An empty source is a benign no-op reported as `SourceEmpty`. A
/// wrapping projectile left the field and vanishes; a wrapping enemy
/// relocates unless blocked at the midline; anything else wrapping stays
/// put. A target past the grid deletes a projectile and blocks anything
/// else. Otherwise a projectile destroys an occupant (crediting its
/// tier's score and leaving a fresh explosion), a non-projectile is
/// rejected by an occupant with `TargetOccupied`, and an empty target
/// receives the mover.
pub open spec fn move_rel(
    pre: ShipGrid,
    post: ShipGrid,
    old_c: Cords,
    new_c: Cords,
    wrapped: bool,
    r: Result<Option<ShipKind>, GridError>,
) -> bool {
    match pre.spec_at(old_c) {
        None => grid_same(pre, post) && r == Err::<Option<ShipKind>, GridError>(
            GridError::SourceEmpty,
        ),
        Some(entity) => {
            let vacated = pre.cells@.update(cell_index_spec(old_c), None::<Ship>);
            if wrapped {
                if is_bullet(entity.kind) {
                    &&& post.score == pre.score
                    &&& post.cells@ == vacated
                    &&& r == Ok::<Option<ShipKind>, GridError>(None)
                } else if is_enemy(entity.kind) {
                    if fly_wrap_blocked(old_c, new_c) || !in_bounds(new_c) {
                        grid_same(pre, post) && r == Ok::<Option<ShipKind>, GridError>(None)
                    } else {
                        &&& post.score == pre.score
                        &&& post.cells@ == vacated.update(cell_index_spec(new_c), Some(entity))
                        &&& r == Ok::<Option<ShipKind>, GridError>(None)
                    }
                } else {
                    grid_same(pre, post) && r == Ok::<Option<ShipKind>, GridError>(None)
                }
            } else if !in_bounds(new_c) {
                if is_bullet(entity.kind) {
                    &&& post.score == pre.score
                    &&& post.cells@ == vacated
                    &&& r == Ok::<Option<ShipKind>, GridError>(None)
                } else {
                    grid_same(pre, post) && r == Ok::<Option<ShipKind>, GridError>(None)
                }
            } else {
                let occupant = if new_c == old_c {
                    None::<Ship>
                } else {
                    pre.spec_at(new_c)
                };
                match occupant {
                    None => {
                        &&& post.score == pre.score
                        &&& post.cells@ == vacated.update(cell_index_spec(new_c), Some(entity))
                        &&& r == Ok::<Option<ShipKind>, GridError>(None)
                    },
                    Some(victim) => {
                        if is_bullet(entity.kind) {
                            &&& post.score == add_score(pre.score, score_of(victim.kind))
                            &&& exists|e: Ship|
                                #[trigger] is_new_explosion_ship(e) && post.cells@
                                    == vacated.update(cell_index_spec(new_c), Some(e))
                            &&& r == Ok::<Option<ShipKind>, GridError>(Some(victim.kind))
                        } else {
                            grid_same(pre, post) && r == Err::<Option<ShipKind>, GridError>(
                                GridError::TargetOccupied,
                            )
                        }
                    },
                }
            }
        },
    }
}

/// How applying one recorded `(position, effect)` pair relates the grid
/// before and after: a cell already vacated earlier in the same pass is
/// skipped; a shot inserts a fresh downward projectile one row below the
/// shooter (displacing any occupant, and impossible past the last row);
/// a removal credits the occupant's tier score and deletes the cell; a
/// move follows `move_rel`.
pub open spec fn apply_action_rel(pre: ShipGrid, post: ShipGrid, c: Cords, a: ShipAction) -> bool {
    if pre.spec_at(c) is None {
        grid_same(pre, post)
    } else {
        match a {
            ShipAction::Nothing => grid_same(pre, post),
            ShipAction::Remove => {
                &&& post.score == add_score(pre.score, score_of(pre.spec_at(c)->0.kind))
                &&& post.cells@ == pre.cells@.update(cell_index_spec(c), None::<Ship>)
            },
            ShipAction::Shoot => {
                let below = Cords((c.0 + 1) as usize, c.1);
                if in_bounds(below) {
                    &&& post.score == pre.score
                    &&& exists|b: Ship|
                        #[trigger] is_new_bullet_ship(b, true) && post.cells@
                            == pre.cells@.update(cell_index_spec(below), Some(b))
                } else {
                    grid_same(pre, post)
                }
            },
            ShipAction::Move(target, wrapped) => exists|r: Result<Option<ShipKind>, GridError>|
                #[trigger] move_rel(pre, post, c, target, wrapped, r),
        }
    }
}

/// How applying a whole recorded pass relates the grid before and after:
/// the pairs are applied in order, each to the grid the previous ones
/// left behind.
pub open spec fn apply_actions_rel(
    pre: ShipGrid,
    post: ShipGrid,
    actions: Seq<(Cords, ShipAction)>,
) -> bool
    decreases actions.len(),
{
    if actions.len() == 0 {
        grid_same(pre, post)
    } else {
        exists|mid: ShipGrid|
            #[trigger] apply_action_rel(pre, mid, actions[0].0, actions[0].1)
                && apply_actions_rel(mid, post, actions.skip(1))
    }
}

/// The snapshot a given entity is evaluated against: every cell shows
/// the kind of the grid's occupant, except the entity's own cell, which
/// is cleared.
pub open spec fn board_matches_excluding(b: Board, g: ShipGrid, excluded: Cords) -> bool {
    forall|d: Cords|
        #[trigger] b.spec_at(d) == (if d == excluded {
            None::<ShipKind>
        } else {
            kind_opt(g.spec_at(d))
        })
}

/// The snapshot shows the kind of the grid's occupant of every cell.
pub open spec fn board_matches(b: Board, g: ShipGrid) -> bool {
    forall|d: Cords| #[trigger] b.spec_at(d) == kind_opt(g.spec_at(d))
}

/// How the snapshot phase relates the entity that sat at `c` in `pre` to
/// the one sitting there afterwards and to the effect recorded for it:
/// the entity's program advanced one tick against the board that shows
/// everything but the entity itself, kind and identity untouched, and
/// the recorded effect is the program's outcome after the projectile
/// boundary rule.
pub open spec fn ship_decision_rel(
    pre: ShipGrid,
    c: Cords,
    post_ship: Ship,
    act: ShipAction,
    s: Settings,
    now: u64,
) -> bool {
    match pre.spec_at(c) {
        Some(s0) => {
            &&& post_ship.kind == s0.kind
            &&& post_ship.id == s0.id
            &&& ship_wf(post_ship)
            &&& exists|b: Board, raw: ShipAction|
                {
                    &&& #[trigger] ai_step_rel(s0.ai, post_ship.ai, raw, c, b, s, now)
                    &&& board_matches_excluding(b, pre, c)
                    &&& act == (if bullet_boundary_stuck(s0.kind, raw, c) {
                        ShipAction::Remove
                    } else {
                        raw
                    })
                }
        },
        None => false,
    }
}

/// How the whole snapshot phase relates the grid before and after, and
/// the recorded pass: the score and every cell's occupancy are
/// untouched; each occupied cell appears exactly once, in row-major
/// order, paired with its entity's decision; and each entity's program
/// advanced as `ship_decision_rel` says.
pub open spec fn phase1_rel(
    pre: ShipGrid,
    mid: ShipGrid,
    actions: Seq<(Cords, ShipAction)>,
    s: Settings,
    now: u64,
) -> bool {
    &&& mid.score == pre.score
    &&& mid.cells.len() == pre.cells.len()
    &&& forall|d: Cords|
        in_bounds(d) ==> ((#[trigger] mid.spec_at(d)) is Some <==> pre.spec_at(d) is Some)
    &&& forall|j: int|
        0 <= j < actions.len() ==> in_bounds((#[trigger] actions[j]).0) && pre.spec_at(
            actions[j].0,
        ) is Some && ship_decision_rel(
            pre,
            actions[j].0,
            mid.spec_at(actions[j].0)->0,
            actions[j].1,
            s,
            now,
        )
    &&& forall|j: int, k: int|
        #![trigger actions[j], actions[k]]
        0 <= j < k < actions.len() ==> cell_index_spec(actions[j].0) < cell_index_spec(
            actions[k].0,
        )
    &&& forall|d: Cords|
        in_bounds(d) && pre.spec_at(d) is Some ==> exists|j: int|
            0 <= j < actions.len() && (#[trigger] actions[j]).0 == d
}

/// The row-major cell of a backing-storage index.
pub open spec fn cords_of_index_spec(i: int) -> Cords {
    Cords((i / (COLUMNS as int)) as usize, (i % (COLUMNS as int)) as usize)
}

/// A backing-storage index maps to an in-bounds cell whose row-major
/// index is itself.
pub proof fn lemma_index_round_trip(j: int)
    requires
        0 <= j < ROWS * COLUMNS,
    ensures
        in_bounds(cords_of_index_spec(j)),
        cell_index_spec(cords_of_index_spec(j)) == j,
{
    assert(j / (COLUMNS as int) < ROWS as int && 0 <= j % (COLUMNS as int) < COLUMNS as int && (j
        / (COLUMNS as int)) * (COLUMNS as int) + j % (COLUMNS as int) == j) by (nonlinear_arith)
        requires
            0 <= j < (ROWS as int) * (COLUMNS as int),
            COLUMNS as int > 0,
    ;
}

/// The row-major cell of a backing-storage index.
pub fn cords_of_index(i: usize) -> (c: Cords)
    requires
        i < ROWS * COLUMNS,
    ensures
        c == cords_of_index_spec(i as int),
        in_bounds(c),
        cell_index_spec(c) == i,
{
    proof {
        lemma_index_round_trip(i as int);
    }
    Cords(i / COLUMNS, i % COLUMNS)
}

/// The number of enemies among the first `n` cells.
pub open spec fn enemy_count_to(cells: Seq<Option<Ship>>, n: int) -> int
    decreases n,
{
    if n <= 0 {
        0
    } else {
        enemy_count_to(cells, n - 1) + (match cells[n - 1] {
            Some(s) => if is_enemy(s.kind) {
                1int
            } else {
                0int
            },
            None => 0int,
        })
    }
}

/// The number of enemies on the grid.
pub open spec fn enemy_count(g: ShipGrid) -> int {
    enemy_count_to(g.cells@, g.cells@.len() as int)
}

/// The number of explosions among the first `n` cells.
pub open spec fn explosion_count_to(cells: Seq<Option<Ship>>, n: int) -> int
    decreases n,
{
    if n <= 0 {
        0
    } else {
        explosion_count_to(cells, n - 1) + (match cells[n - 1] {
            Some(s) => if s.kind == ShipKind::Explosion {
                1int
            } else {
                0int
            },
            None => 0int,
        })
    }
}

/// The number of explosions on the grid.
pub open spec fn explosion_count(g: ShipGrid) -> int {
    explosion_count_to(g.cells@, g.cells@.len() as int)
}

/// The number of occupied cells among the first `n`.
pub open spec fn occupied_count_to(cells: Seq<Option<Ship>>, n: int) -> int
    decreases n,
{
    if n <= 0 {
        0
    } else {
        occupied_count_to(cells, n - 1) + (if cells[n - 1] is Some {
            1int
        } else {
            0int
        })
    }
}

/// The number of occupied cells.
pub open spec fn occupied_count(cells: Seq<Option<Ship>>) -> int {
    occupied_count_to(cells, cells.len() as int)
}

/// A prefix of empty cells counts zero.
pub proof fn lemma_occupied_count_none(cells: Seq<Option<Ship>>, n: int)
    requires
        n <= cells.len(),
        forall|j: int| 0 <= j < n ==> (#[trigger] cells[j]) is None,
    ensures
        occupied_count_to(cells, n) == 0,
    decreases n,
{
    if n > 0 {
        lemma_occupied_count_none(cells, n - 1);
    }
}

/// Filling one empty cell raises the occupied count of a prefix that
/// covers it by exactly one.
pub proof fn lemma_occupied_count_update(cells: Seq<Option<Ship>>, k: int, x: Ship, n: int)
    requires
        0 <= k < cells.len(),
        cells[k] is None,
        n <= cells.len(),
    ensures
        occupied_count_to(cells.update(k, Some(x)), n) == occupied_count_to(cells, n) + (if k < n {
            1int
        } else {
            0int
        }),
    decreases n,
{
    if n > 0 {
        lemma_occupied_count_update(cells, k, x, n - 1);
        assert(cells.update(k, Some(x))[n - 1] == (if k == n - 1 {
            Some(x)
        } else {
            cells[n - 1]
        }));
    }
}

/// The enemy count of a prefix is zero exactly when no cell of the
/// prefix holds an enemy.
pub proof fn lemma_enemy_count_zero(cells: Seq<Option<Ship>>, n: int)
    requires
        n <= cells.len(),
    ensures
        (enemy_count_to(cells, n) == 0) <==> (forall|j: int|
            0 <= j < n ==> !(match #[trigger] cells[j] {
                Some(s) => is_enemy(s.kind),
                None => false,
            })),
        enemy_count_to(cells, n) >= 0,
    decreases n,
{
    if n > 0 {
        lemma_enemy_count_zero(cells, n - 1);
    }
}

/// The explosion count of a prefix is zero exactly when no cell of the
/// prefix holds an explosion.
pub proof fn lemma_explosion_count_zero(cells: Seq<Option<Ship>>, n: int)
    requires
        n <= cells.len(),
    ensures
        (explosion_count_to(cells, n) == 0) <==> (forall|j: int|
            0 <= j < n ==> !(match #[trigger] cells[j] {
                Some(s) => s.kind == ShipKind::Explosion,
                None => false,
            })),
        explosion_count_to(cells, n) >= 0,
    decreases n,
{
    if n > 0 {
        lemma_explosion_count_zero(cells, n - 1);
    }
}

/// `apply_action_rel` only reads the entities and the score, so it
/// transports across grids that hold the same.
pub proof fn lemma_apply_action_congruence(
    pre1: ShipGrid,
    pre2: ShipGrid,
    post: ShipGrid,
    c: Cords,
    a: ShipAction,
)
    requires
        grid_same(pre1, pre2),
        apply_action_rel(pre2, post, c, a),
    ensures
        apply_action_rel(pre1, post, c, a),
{
    assert(pre1.cells@ == pre2.cells@);
    assert forall|d: Cords| pre1.spec_at(d) == pre2.spec_at(d) by {}
    if pre2.spec_at(c) is Some {
        match a {
            ShipAction::Move(target, wrapped) => {
                let r = choose|r: Result<Option<ShipKind>, GridError>|
                    #[trigger] move_rel(pre2, post, c, target, wrapped, r);
                assert(move_rel(pre2, post, c, target, wrapped, r));
                assert(move_rel(pre1, post, c, target, wrapped, r));
            },
            _ => {},
        }
    }
}

/// No single applied effect ever lowers the score.
pub proof fn lemma_apply_action_score_monotone(pre: ShipGrid, post: ShipGrid, c: Cords, a: ShipAction)
    requires
        apply_action_rel(pre, post, c, a),
    ensures
        post.score >= pre.score,
{
    if pre.spec_at(c) is Some {
        match a {
            ShipAction::Move(target, wrapped) => {
                let r = choose|r: Result<Option<ShipKind>, GridError>|
                    #[trigger] move_rel(pre, post, c, target, wrapped, r);
                assert(move_rel(pre, post, c, target, wrapped, r));
            },
            _ => {},
        }
    }
}

/// No applied pass ever lowers the score: within a life cycle the score
/// only grows.
pub proof fn lemma_apply_actions_score_monotone(
    pre: ShipGrid,
    post: ShipGrid,
    actions: Seq<(Cords, ShipAction)>,
)
    requires
        apply_actions_rel(pre, post, actions),
    ensures
        post.score >= pre.score,
    decreases actions.len(),
{
    if actions.len() > 0 {
        let mid = choose|mid: ShipGrid|
            #[trigger] apply_action_rel(pre, mid, actions[0].0, actions[0].1) && apply_actions_rel(
                mid,
                post,
                actions.skip(1),
            );
        lemma_apply_action_score_monotone(pre, mid, actions[0].0, actions[0].1);
        lemma_apply_actions_score_monotone(mid, post, actions.skip(1));
    }
}

/// A projectile moving onto a cell occupied by an enemy credits exactly
/// that enemy's tier score, consumes the projectile, and leaves a fresh
/// explosion at the cell.
pub proof fn lemma_bullet_collision_scores(
    pre: ShipGrid,
    post: ShipGrid,
    old_c: Cords,
    new_c: Cords,
    r: Result<Option<ShipKind>, GridError>,
)
    requires
        grid_wf(pre),
        in_bounds(old_c),
        in_bounds(new_c),
        old_c != new_c,
        move_rel(pre, post, old_c, new_c, false, r),
        pre.spec_at(old_c) is Some,
        is_bullet(pre.spec_at(old_c)->0.kind),
        pre.spec_at(new_c) is Some,
    ensures
        post.score == add_score(pre.score, score_of(pre.spec_at(new_c)->0.kind)),
        post.spec_at(old_c) is None,
        (match post.spec_at(new_c) {
            Some(e) => is_new_explosion_ship(e),
            None => false,
        }),
        r == Ok::<Option<ShipKind>, GridError>(Some(pre.spec_at(new_c)->0.kind)),
{
    lemma_cell_index_bounds(old_c);
    lemma_cell_index_bounds(new_c);
    if cell_index_spec(old_c) == cell_index_spec(new_c) {
        lemma_cell_index_injective(old_c, new_c);
    }
    let e = choose|e: Ship|
        #[trigger] is_new_explosion_ship(e) && post.cells@ == pre.cells@.update(
            cell_index_spec(old_c),
            None::<Ship>,
        ).update(cell_index_spec(new_c), Some(e));
    assert(post.spec_at(new_c) == Some(e));
}

/// Two non-projectile entities that try to move onto each other's cells
/// in the same pass are both rejected: the grid is unchanged.
pub proof fn lemma_nonbullet_moves_block(g: ShipGrid, post: ShipGrid, a: Cords, b: Cords)
    requires
        grid_wf(g),
        in_bounds(a),
        in_bounds(b),
        a != b,
        g.spec_at(a) is Some,
        !is_bullet(g.spec_at(a)->0.kind),
        g.spec_at(b) is Some,
        !is_bullet(g.spec_at(b)->0.kind),
        apply_actions_rel(
            g,
            post,
            seq![(a, ShipAction::Move(b, false)), (b, ShipAction::Move(a, false))],
        ),
    ensures
        grid_same(g, post),
{
    let actions = seq![(a, ShipAction::Move(b, false)), (b, ShipAction::Move(a, false))];
    let mid = choose|mid: ShipGrid|
        #[trigger] apply_action_rel(g, mid, actions[0].0, actions[0].1) && apply_actions_rel(
            mid,
            post,
            actions.skip(1),
        );
    let r0 = choose|r: Result<Option<ShipKind>, GridError>| #[trigger] move_rel(g, mid, a, b, false, r);
    assert(grid_same(g, mid));

    let rest = actions.skip(1);
    assert(rest.len() == 1);
    assert(rest[0] == (b, ShipAction::Move(a, false)));
    let mid2 = choose|m: ShipGrid|
        #[trigger] apply_action_rel(mid, m, rest[0].0, rest[0].1) && apply_actions_rel(
            m,
            post,
            rest.skip(1),
        );
    assert(mid.spec_at(b) == g.spec_at(b));
    assert(mid.spec_at(a) == g.spec_at(a));
    let r1 = choose|r: Result<Option<ShipKind>, GridError>|
        #[trigger] move_rel(mid, mid2, b, a, false, r);
    assert(grid_same(mid, mid2));
    assert(rest.skip(1) =~= Seq::<(Cords, ShipAction)>::empty());
    assert(grid_same(mid2, post));
}

/// Extending an applied pass by one more pair.
pub proof fn lemma_apply_actions_snoc(
    pre: ShipGrid,
    mid: ShipGrid,
    post: ShipGrid,
    actions: Seq<(Cords, ShipAction)>,
    c: Cords,
    a: ShipAction,
)
    requires
        apply_actions_rel(pre, mid, actions),
        apply_action_rel(mid, post, c, a),
    ensures
        apply_actions_rel(pre, post, actions.push((c, a))),
    decreases actions.len(),
{
    let extended = actions.push((c, a));
    if actions.len() == 0 {
        lemma_apply_action_congruence(pre, mid, post, c, a);
        assert(extended[0] == (c, a));
        assert(extended.skip(1) =~= Seq::<(Cords, ShipAction)>::empty());
        assert(grid_same(post, post));
        assert(apply_actions_rel(post, post, extended.skip(1)));
        assert(apply_action_rel(pre, post, extended[0].0, extended[0].1));
    } else {
        let m = choose|m: ShipGrid|
            #[trigger] apply_action_rel(pre, m, actions[0].0, actions[0].1) && apply_actions_rel(
                m,
                mid,
                actions.skip(1),
            );
        lemma_apply_actions_snoc(m, mid, post, actions.skip(1), c, a);
        assert(extended.skip(1) =~= actions.skip(1).push((c, a)));
        assert(extended[0] == actions[0]);
        assert(apply_action_rel(pre, m, extended[0].0, extended[0].1));
    }
}

impl ShipGrid {
    /// The occupant of a cell; out-of-bounds cells are empty.
    pub open spec fn spec_at(self, c: Cords) -> Option<Ship> {
        if in_bounds(c) {
            self.cells[cell_index_spec(c)]
        } else {
            None
        }
    }

    /// An empty grid with a zero score.
    pub fn new() -> (g: ShipGrid)
        ensures
            grid_wf(g),
            g.score == 0,
            forall|c: Cords| g.spec_at(c) is None,
    {
        let cap = grid_cell_count();
        let mut cells: Vec<Option<Ship>> = Vec::new();
        let mut i: usize = 0;
        while i < cap
            invariant
                i <= cap,
                cells.len() == i,
                forall|j: int| 0 <= j < i ==> cells[j] is None,
            decreases cap - i,
        {
            cells.push(None);
            i = i + 1;
        }
        let g = ShipGrid { cells, score: 0 };
        proof {
            assert forall|c: Cords| g.spec_at(c) is None by {
                if in_bounds(c) {
                    lemma_cell_index_bounds(c);
                }
            }
        }
        g
    }

    /// Whether a cell is occupied.
    pub fn contains(&self, c: Cords) -> (r: bool)
        requires
            grid_wf(*self),
        ensures
            r == (self.spec_at(c) is Some),
    {
        if c.0 < ROWS && c.1 < COLUMNS {
            let i = cell_index(c);
            self.cells[i].is_some()
        } else {
            false
        }
    }

    /// The kind of a cell's occupant.
    pub fn kind_at(&self, c: Cords) -> (r: Option<ShipKind>)
        requires
            grid_wf(*self),
        ensures
            r == kind_opt(self.spec_at(c)),
    {
        if c.0 < ROWS && c.1 < COLUMNS {
            let i = cell_index(c);
            match &self.cells[i] {
                Some(ship) => Some(ship.kind),
                None => None,
            }
        } else {
            None
        }
    }

    /// Remove and return the occupant of a cell.
    fn take(&mut self, c: Cords) -> (r: Option<Ship>)
        requires
            grid_wf(*old(self)),
        ensures
            grid_wf(*final(self)),
            r == old(self).spec_at(c),
            final(self).score == old(self).score,
            r is Some ==> ship_wf(r->0),
            in_bounds(c) ==> final(self).cells@ == old(self).cells@.update(
                cell_index_spec(c),
                None::<Ship>,
            ),
            !in_bounds(c) ==> *final(self) == *old(self),
    {
        if c.0 < ROWS && c.1 < COLUMNS {
            let i = cell_index(c);
            self.cells[i].take()
        } else {
            None
        }
    }

    /// Place an entity in an in-bounds cell, displacing any occupant.
    fn put(&mut self, c: Cords, ship: Ship)
        requires
            grid_wf(*old(self)),
            in_bounds(c),
            ship_wf(ship),
        ensures
            grid_wf(*final(self)),
            final(self).score == old(self).score,
            final(self).cells@ == old(self).cells@.update(cell_index_spec(c), Some(ship)),
    {
        let i = cell_index(c);
        self.cells[i] = Some(ship);
    }

    /// Credit the score, saturating at the counter's maximum.
    fn credit(&mut self, pts: u32)
        ensures
            final(self).score == add_score(old(self).score, pts),
            final(self).cells == old(self).cells,
    {
        self.score = self.score.saturating_add(pts);
    }

    /// Place an entity in an in-bounds cell, displacing any occupant.
    pub fn insert_entity(&mut self, c: Cords, ship: Ship)
        requires
            grid_wf(*old(self)),
            in_bounds(c),
            ship_wf(ship),
        ensures
            grid_wf(*final(self)),
            final(self).score == old(self).score,
            final(self).cells@ == old(self).cells@.update(cell_index_spec(c), Some(ship)),
    {
        self.put(c, ship);
    }

    /// Remove and return the occupant of a cell.
    pub fn remove_entity(&mut self, c: Cords) -> (r: Option<Ship>)
        requires
            grid_wf(*old(self)),
        ensures
            grid_wf(*final(self)),
            r == old(self).spec_at(c),
            final(self).score == old(self).score,
            in_bounds(c) ==> final(self).cells@ == old(self).cells@.update(
                cell_index_spec(c),
                None::<Ship>,
            ),
            !in_bounds(c) ==> *final(self) == *old(self),
    {
        self.take(c)
    }

    /// Credit the score, saturating at the counter's maximum.
    pub fn credit_score(&mut self, pts: u32)
        ensures
            final(self).score == add_score(old(self).score, pts),
            final(self).cells == old(self).cells,
    {
        self.credit(pts);
    }

    /// Replace the grid's entities wholesale; the score is untouched.
    pub fn set_entities(&mut self, cells: Vec<Option<Ship>>)
        requires
            cells@.len() == ROWS * COLUMNS,
            forall|j: int|
                0 <= j < cells@.len() ==> (match #[trigger] cells@[j] {
                    Some(s) => ship_wf(s),
                    None => true,
                }),
        ensures
            grid_wf(*final(self)),
            final(self).score == old(self).score,
            final(self).cells@ == cells@,
    {
        self.cells = cells;
    }

    /// Remove every entity; the score is untouched.
    pub fn clear(&mut self)
        requires
            grid_wf(*old(self)),
        ensures
            grid_wf(*final(self)),
            final(self).score == old(self).score,
            forall|c: Cords| final(self).spec_at(c) is None,
    {
        let cap = grid_cell_count();
        let mut i: usize = 0;
        while i < cap
            invariant
                i <= cap,
                self.cells.len() == cap,
                self.score == old(self).score,
                forall|j: int| 0 <= j < i ==> self.cells[j] is None,
                grid_wf(*self),
            decreases cap - i,
        {
            self.cells[i] = None;
            i = i + 1;
        }
        proof {
            assert forall|c: Cords| self.spec_at(c) is None by {
                if in_bounds(c) {
                    lemma_cell_index_bounds(c);
                }
            }
        }
    }

    /// Move the occupant of `old_coords` toward `new_coords`, applying
    /// the wrap, boundary, collision and blocking rules of `move_rel`.
    /// `Ok(Some(kind))` reports a destroyed occupant of that kind.
    pub fn move_entity(
        &mut self,
        old_coords: Cords,
        new_coords: Cords,
        wrapped: bool,
    ) -> (r: Result<Option<ShipKind>, GridError>)
        requires
            grid_wf(*old(self)),
        ensures
            grid_wf(*final(self)),
            move_rel(*old(self), *final(self), old_coords, new_coords, wrapped, r),
    {
        let entity_opt = self.take(old_coords);
        let entity = match entity_opt {
            None => {
                proof {
                    if in_bounds(old_coords) {
                        lemma_cell_index_bounds(old_coords);
                        assert(self.cells@ =~= old(self).cells@);
                    }
                }
                return Err(GridError::SourceEmpty);
            },
            Some(e) => e,
        };

        if wrapped {
            if entity.kind.is_bullet_kind() {
                // A projectile that wraps has left the field.
                return Ok(None);
            } else if entity.kind.is_enemy_kind() {
                if (old_coords.0 < new_coords.0 && old_coords.0 < ROWS / 2 && new_coords.0 > ROWS
                    / 2) || !(new_coords.0 < ROWS && new_coords.1 < COLUMNS) {
                    self.put(old_coords, entity);
                    proof {
                        lemma_cell_index_bounds(old_coords);
                        assert(self.cells@ =~= old(self).cells@);
                    }
                    return Ok(None);
                } else {
                    self.put(new_coords, entity);
                    return Ok(None);
                }
            } else {
                // Anything else is left where it was.
                self.put(old_coords, entity);
                proof {
                    lemma_cell_index_bounds(old_coords);
                    assert(self.cells@ =~= old(self).cells@);
                }
                return Ok(None);
            }
        }

        if !(new_coords.0 < ROWS && new_coords.1 < COLUMNS) {
            if entity.kind.is_bullet_kind() {
                // A projectile past the boundary is deleted.
                return Ok(None);
            } else {
                self.put(old_coords, entity);
                proof {
                    lemma_cell_index_bounds(old_coords);
                    assert(self.cells@ =~= old(self).cells@);
                }
                return Ok(None);
            }
        }

        proof {
            lemma_cell_index_bounds(old_coords);
            lemma_cell_index_bounds(new_coords);
            if new_coords != old_coords && cell_index_spec(new_coords) == cell_index_spec(
                old_coords,
            ) {
                lemma_cell_index_injective(new_coords, old_coords);
            }
        }
        match self.kind_at(new_coords) {
            Some(victim_kind) => {
                if entity.kind.is_bullet_kind() {
                    let explosion = new_explosion_ship();
                    self.put(new_coords, explosion);
                    let pts = ShipKind::score_value(&victim_kind);
                    self.credit(pts);
                    proof {
                        assert(is_new_explosion_ship(explosion));
                        assert(self.cells@ == old(self).cells@.update(
                            cell_index_spec(old_coords),
                            None::<Ship>,
                        ).update(cell_index_spec(new_coords), Some(explosion)));
                    }
                    Ok(Some(victim_kind))
                } else {
                    self.put(old_coords, entity);
                    proof {
                        lemma_cell_index_bounds(old_coords);
                        assert(self.cells@ =~= old(self).cells@);
                    }
                    Err(GridError::TargetOccupied)
                }
            },
            None => {
                self.put(new_coords, entity);
                Ok(None)
            },
        }
    }

    /// Apply a recorded pass of `(position, effect)` pairs in order,
    /// exactly as `apply_actions_rel` relates them.
    pub fn execute_actions(&mut self, actions: &Vec<(Cords, ShipAction)>)
        requires
            grid_wf(*old(self)),
        ensures
            grid_wf(*final(self)),
            apply_actions_rel(*old(self), *final(self), actions@),
            final(self).score >= old(self).score,
    {
        let ghost g0: ShipGrid = *self;
        let mut i: usize = 0;
        proof {
            assert(actions@.take(0) =~= Seq::<(Cords, ShipAction)>::empty());
            assert(grid_same(g0, *self));
        }
        while i < actions.len()
            invariant
                grid_wf(*self),
                i <= actions.len(),
                apply_actions_rel(g0, *self, actions@.take(i as int)),
            decreases actions.len() - i,
        {
            let pair = &actions[i];
            let c = pair.0;
            let a = pair.1;
            let ghost mid: ShipGrid = *self;
            proof {
                if in_bounds(c) {
                    lemma_cell_index_bounds(c);
                }
            }
            if self.contains(c) {
                match a {
                    ShipAction::Move(target, wrapped) => {
                        let r = self.move_entity(c, target, wrapped);
                        proof {
                            assert(move_rel(mid, *self, c, target, wrapped, r));
                        }
                    },
                    ShipAction::Shoot => {
                        let below = Cords(c.0 + 1, c.1);
                        if below.0 < ROWS && below.1 < COLUMNS {
                            let b = new_bullet_ship(true);
                            proof {
                                lemma_cell_index_bounds(below);
                            }
                            self.put(below, b);
                            proof {
                                assert(is_new_bullet_ship(b, true));
                            }
                        }
                    },
                    ShipAction::Remove => {
                        match self.kind_at(c) {
                            Some(kind) => {
                                let pts = ShipKind::score_value(&kind);
                                self.credit(pts);
                            },
                            None => {},
                        }
                        let _ = self.take(c);
                    },
                    ShipAction::Nothing => {},
                }
            }
            proof {
                assert(apply_action_rel(mid, *self, c, a));
                lemma_apply_actions_snoc(g0, mid, *self, actions@.take(i as int), c, a);
                assert(actions@.take(i as int).push((c, a)) =~= actions@.take(i as int + 1));
            }
            i = i + 1;
        }
        proof {
            assert(actions@.take(actions@.len() as int) =~= actions@);
            lemma_apply_actions_score_monotone(g0, *self, actions@);
        }
    }

    /// A read-only snapshot of the kinds on the grid.
    pub fn snapshot_board(&self) -> (b: Board)
        requires
            grid_wf(*self),
        ensures
            board_wf(b),
            board_matches(b, *self),
    {
        let cap = grid_cell_count();
        let mut kinds: Vec<Option<ShipKind>> = Vec::new();
        let mut i: usize = 0;
        while i < cap
            invariant
                i <= cap,
                kinds.len() == i,
                self.cells.len() == cap,
                grid_wf(*self),
                forall|j: int| 0 <= j < i ==> kinds[j] == kind_opt(#[trigger] self.cells[j]),
            decreases cap - i,
        {
            match &self.cells[i] {
                Some(ship) => kinds.push(Some(ship.kind)),
                None => kinds.push(None),
            }
            i = i + 1;
        }
        let b = Board { kinds };
        proof {
            assert forall|d: Cords| b.spec_at(d) == kind_opt(self.spec_at(d)) by {
                if in_bounds(d) {
                    lemma_cell_index_bounds(d);
                }
            }
        }
        b
    }

    /// One full tick of every entity, in two phases: first every
    /// entity's program is advanced against a snapshot of the board with
    /// that one entity removed and its effect recorded (in row-major
    /// order), then the recorded pass is applied under the occupancy and
    /// collision rules.
    pub fn process_ship_actions(&mut self, settings: &Settings, now_ms: u64)
        requires
            grid_wf(*old(self)),
        ensures
            grid_wf(*final(self)),
            final(self).score >= old(self).score,
            exists|actions: Seq<(Cords, ShipAction)>, mid: ShipGrid|
                {
                    &&& #[trigger] phase1_rel(*old(self), mid, actions, *settings, now_ms)
                    &&& apply_actions_rel(mid, *final(self), actions)
                },
    {
        let ghost g0: ShipGrid = *self;
        let mut board = self.snapshot_board();
        let mut actions: Vec<(Cords, ShipAction)> = Vec::new();
        let cap = grid_cell_count();
        let mut i: usize = 0;

        while i < cap
            invariant
                grid_wf(*self),
                i <= cap,
                cap == ROWS * COLUMNS,
                self.cells.len() == cap,
                g0.cells.len() == cap,
                self.score == g0.score,
                grid_wf(g0),
                board_wf(board),
                board_matches(board, g0),
                forall|j: int| i <= j < cap ==> #[trigger] self.cells[j] == g0.cells[j],
                forall|j: int|
                    0 <= j < cap ==> ((#[trigger] self.cells[j]) is Some <==> g0.cells[j] is Some),
                forall|j: int|
                    0 <= j < actions@.len() ==> in_bounds((#[trigger] actions@[j]).0)
                        && cell_index_spec(actions@[j].0) < i && g0.spec_at(actions@[j].0) is Some
                        && ship_decision_rel(
                        g0,
                        actions@[j].0,
                        self.spec_at(actions@[j].0)->0,
                        actions@[j].1,
                        *settings,
                        now_ms,
                    ),
                forall|j: int, k: int|
                    #![trigger actions@[j], actions@[k]]
                    0 <= j < k < actions@.len() ==> cell_index_spec(actions@[j].0)
                        < cell_index_spec(actions@[k].0),
                forall|j: int|
                    0 <= j < i && (#[trigger] g0.cells[j]) is Some ==> exists|k: int|
                        0 <= k < actions@.len() && cell_index_spec((#[trigger] actions@[k]).0)
                            == j,
            decreases cap - i,
        {
            let c = cords_of_index(i);
            let ship_opt = self.cells[i].take();
            match ship_opt {
                Some(mut ship) => {
                    board.set(c, None);
                    proof {
                        assert(board_matches_excluding(board, g0, c));
                        assert(ship == g0.spec_at(c)->0);
                    }
                    let act = ship.get_action(c, &board, settings, now_ms);
                    board.set(c, Some(ship.kind));
                    proof {
                        assert forall|d: Cords| board.spec_at(d) == kind_opt(g0.spec_at(d)) by {}
                    }
                    self.cells[i] = Some(ship);
                    let ghost prev_actions = actions@;
                    actions.push((c, act));
                    proof {
                        assert(self.spec_at(c) == Some(ship));
                        assert(ship_decision_rel(g0, c, ship, act, *settings, now_ms));
                        assert forall|j: int|
                            0 <= j < actions@.len() implies in_bounds((#[trigger] actions@[j]).0)
                            && cell_index_spec(actions@[j].0) < i + 1 && g0.spec_at(
                            actions@[j].0,
                        ) is Some && ship_decision_rel(
                            g0,
                            actions@[j].0,
                            self.spec_at(actions@[j].0)->0,
                            actions@[j].1,
                            *settings,
                            now_ms,
                        ) by {
                            if j < actions@.len() - 1 {
                                assert(actions@[j] == prev_actions[j]);
                                assert(cell_index_spec(actions@[j].0) < i);
                            }
                        }
                        assert forall|j: int|
                            0 <= j < i + 1 && (#[trigger] g0.cells[j]) is Some implies exists|
                            k: int,
                        |
                            0 <= k < actions@.len() && cell_index_spec((#[trigger] actions@[k]).0)
                                == j by {
                            if j == i {
                                assert(actions@[actions@.len() - 1].0 == c);
                                assert(cell_index_spec(c) == i as int);
                            } else {
                                let k0 = choose|k: int|
                                    0 <= k < prev_actions.len() && cell_index_spec(
                                        (#[trigger] prev_actions[k]).0,
                                    ) == j;
                                assert(actions@[k0] == prev_actions[k0]);
                            }
                        }
                    }
                },
                None => {},
            }
            i = i + 1;
        }

        proof {
            assert forall|d: Cords|
                in_bounds(d) implies ((#[trigger] self.spec_at(d)) is Some <==> g0.spec_at(
                d,
            ) is Some) by {
                lemma_cell_index_bounds(d);
            }
            assert forall|d: Cords|
                in_bounds(d) && g0.spec_at(d) is Some implies exists|j: int|
                0 <= j < actions@.len() && (#[trigger] actions@[j]).0 == d by {
                lemma_cell_index_bounds(d);
                let jj = choose|k: int|
                    0 <= k < actions@.len() && cell_index_spec((#[trigger] actions@[k]).0)
                        == cell_index_spec(d);
                lemma_cell_index_injective(actions@[jj].0, d);
                assert(actions@[jj].0 == d);
            }
            assert(phase1_rel(g0, *self, actions@, *settings, now_ms));
        }

        let ghost mid: ShipGrid = *self;
        self.execute_actions(&actions);
        proof {
            assert(phase1_rel(*old(self), mid, actions@, *settings, now_ms));
            assert(apply_actions_rel(mid, *self, actions@));
        }
    }

    /// The number of enemies on the grid.
    pub fn count_enemies(&self) -> (n: usize)
        requires
            grid_wf(*self),
        ensures
            n == enemy_count(*self),
    {
        let cap = grid_cell_count();
        let mut n: usize = 0;
        let mut i: usize = 0;
        while i < cap
            invariant
                i <= cap,
                self.cells.len() == cap,
                grid_wf(*self),
                n <= i,
                n == enemy_count_to(self.cells@, i as int),
            decreases cap - i,
        {
            match &self.cells[i] {
                Some(ship) => {
                    if ship.kind.is_enemy_kind() {
                        n = n + 1;
                    }
                },
                None => {},
            }
            i = i + 1;
        }
        n
    }

    /// The number of explosions on the grid.
    pub fn count_explosions(&self) -> (n: usize)
        requires
            grid_wf(*self),
        ensures
            n == explosion_count(*self),
    {
        let cap = grid_cell_count();
        let mut n: usize = 0;
        let mut i: usize = 0;
        while i < cap
            invariant
                i <= cap,
                self.cells.len() == cap,
                grid_wf(*self),
                n <= i,
                n == explosion_count_to(self.cells@, i as int),
            decreases cap - i,
        {
            match &self.cells[i] {
                Some(ship) => {
                    match ship.kind {
                        ShipKind::Explosion => {
                            n = n + 1;
                        },
                        _ => {},
                    }
                },
                None => {},
            }
            i = i + 1;
        }
        n
    }
}

} // verus!
