//! The player: lives, position, the respawn-blink state machine, the
//! shooting cooldown, and collision adjudication against the grid.

use vstd::prelude::*;
use crate::board::{cell_index_spec, lemma_cell_index_bounds, score_of};
use crate::geometry::{in_bounds, Cords, COLUMNS, ROWS};
use crate::grid::{add_score, grid_same, grid_wf, ShipGrid};
use crate::ship::{is_new_bullet_ship, new_bullet_ship, Ship};
use crate::timer::{elapsed_ms, timer_fires, Timer};

verus! {

/// The minimum time between player shots, in milliseconds.
pub const SHOT_COOLDOWN_MS: u64 = 2000;

/// The player. `current_position` is `None` while the player is not
/// visible this instant: together with `is_dead` and fewer than three
/// completed blink cycles that is the transient flicker state, not
/// permanent death.
#[derive(Clone, Debug)]
pub struct Player {
    pub lives: u8,
    pub current_position: Option<Cords>,
    pub start_position: Cords,
    pub movement_direction: i8,
    pub is_dead: bool,
    pub blink_timer: Timer,
    pub blink_count: u8,
    pub last_shot_time: Option<u64>,
}

/// Lives stay within one to five, positions stay on the grid, the blink
/// counter never passes its three cycles, and a dead player who is
/// visible mid-blink still has a cycle to complete.
pub open spec fn player_wf(p: Player) -> bool {
    &&& 1 <= p.lives <= 5
    &&& in_bounds(p.start_position)
    &&& (match p.current_position {
        Some(c) => in_bounds(c),
        None => true,
    })
    &&& p.blink_count <= 3
    &&& (p.is_dead && p.current_position is Some ==> p.blink_count < 3)
}

/// A timer rearmed at `now`.
pub open spec fn rearmed(t: Timer, now: u64) -> Timer {
    Timer { current: 0, active: true, last_action_time: now, ..t }
}

/// The player after one step left: rejected while dead or while not
/// visible, clamped at the first column.
pub open spec fn moved_left(p: Player) -> Player {
    if p.is_dead {
        p
    } else {
        match p.current_position {
            Some(c) => if c.1 > 0 {
                Player { current_position: Some(Cords(c.0, (c.1 - 1) as usize)), ..p }
            } else {
                p
            },
            None => p,
        }
    }
}

/// The player after one step right: rejected while dead or while not
/// visible, clamped at the last column.
pub open spec fn moved_right(p: Player) -> Player {
    if p.is_dead {
        p
    } else {
        match p.current_position {
            Some(c) => if c.1 + 1 < COLUMNS {
                Player { current_position: Some(Cords(c.0, (c.1 + 1) as usize)), ..p }
            } else {
                p
            },
            None => p,
        }
    }
}

/// Whether a shot at `now` is still within the cooldown window after the
/// last one.
pub open spec fn cooldown_active(p: Player, now: u64) -> bool {
    match p.last_shot_time {
        Some(t) => elapsed_ms(t, now) < SHOT_COOLDOWN_MS,
        None => false,
    }
}

/// The cell a player shot appears in: directly above the player,
/// clamped at the top row.
pub open spec fn shot_cell(p: Cords) -> Cords {
    Cords(
        if p.0 > 0 {
            (p.0 - 1) as usize
        } else {
            0
        },
        p.1,
    )
}

/// How one shot attempt relates the player and the grid before and
/// after: it is rejected while dead, within the cooldown, while not
/// visible, or into an occupied cell; otherwise an upward projectile
/// appears above the player and the cooldown restarts.
pub open spec fn shoot_rel(
    p0: Player,
    p1: Player,
    g0: ShipGrid,
    g1: ShipGrid,
    now: u64,
    fired: bool,
) -> bool {
    &&& fired == (!p0.is_dead && !cooldown_active(p0, now) && p0.current_position is Some
        && g0.spec_at(shot_cell(p0.current_position->0)) is None)
    &&& (!fired ==> p1 == p0 && grid_same(g0, g1))
    &&& (fired ==> {
        &&& p1 == Player { last_shot_time: Some(now), ..p0 }
        &&& g1.score == g0.score
        &&& exists|b: Ship|
            #[trigger] is_new_bullet_ship(b, false) && g1.cells@ == g0.cells@.update(
                cell_index_spec(shot_cell(p0.current_position->0)),
                Some(b),
            )
    })
}

/// The player after one firing of the blink timer while dead: visibility
/// toggles (a completed show/hide pair counts one blink cycle), and
/// after the third cycle the player stands respawned at the start
/// position with death cleared.
pub open spec fn blink_step(p: Player, now: u64) -> Player {
    if p.current_position is None {
        Player {
            current_position: Some(p.start_position),
            is_dead: !(p.blink_count >= 3),
            blink_timer: rearmed(p.blink_timer, now),
            ..p
        }
    } else {
        let cnt = (p.blink_count + 1) as u8;
        if cnt >= 3 {
            Player {
                current_position: Some(p.start_position),
                is_dead: false,
                blink_count: cnt,
                blink_timer: rearmed(p.blink_timer, now),
                ..p
            }
        } else {
            Player {
                current_position: None,
                is_dead: true,
                blink_count: cnt,
                blink_timer: rearmed(p.blink_timer, now),
                ..p
            }
        }
    }
}

/// The player state after a life is lost at `now`: dead and invisible,
/// blink restarted.
pub open spec fn life_lost(p: Player, lives: u8, now: u64) -> Player {
    Player {
        lives,
        current_position: None,
        is_dead: true,
        blink_count: 0,
        blink_timer: rearmed(p.blink_timer, now),
        ..p
    }
}

/// The player after a full reset: five lives, dead and invisible with
/// the blink restarted, facing right, cooldown cleared.
pub open spec fn full_reset(p: Player, now: u64) -> Player {
    Player {
        lives: 5,
        current_position: None,
        is_dead: true,
        blink_count: 0,
        blink_timer: rearmed(p.blink_timer, now),
        movement_direction: 1,
        last_shot_time: None,
        ..p
    }
}

impl Player {
    /// A fresh player with five lives at the start position, two rows
    /// above the bottom in the middle column.
    pub fn new(now_ms: u64) -> (p: Player)
        ensures
            player_wf(p),
            p.lives == 5,
            p.start_position == Cords((ROWS - 2) as usize, (COLUMNS / 2) as usize),
            p.current_position == Some(p.start_position),
            !p.is_dead,
            p.blink_count == 0,
            p.last_shot_time is None,
            p.movement_direction == 1,
    {
        let start_position = Cords(ROWS - 2, COLUMNS / 2);
        Player {
            lives: 5,
            current_position: Some(start_position),
            start_position,
            movement_direction: 1,
            is_dead: false,
            blink_timer: Timer::new_with_duration(50, 15, "blink_timer", now_ms),
            blink_count: 0,
            last_shot_time: None,
        }
    }

    /// Step one column left; rejected while dead, clamped at the edge.
    pub fn move_left(&mut self)
        requires
            player_wf(*old(self)),
        ensures
            player_wf(*final(self)),
            *final(self) == moved_left(*old(self)),
    {
        if self.is_dead {
            return ;
        }
        match &mut self.current_position {
            Some(current_pos) => {
                if current_pos.1 > 0 {
                    current_pos.1 = current_pos.1 - 1;
                }
            },
            None => {},
        }
    }

    /// Step one column right; rejected while dead, clamped at the edge.
    pub fn move_right(&mut self)
        requires
            player_wf(*old(self)),
        ensures
            player_wf(*final(self)),
            *final(self) == moved_right(*old(self)),
    {
        if self.is_dead {
            return ;
        }
        match &mut self.current_position {
            Some(current_pos) => {
                if current_pos.1 < COLUMNS - 1 {
                    current_pos.1 = current_pos.1 + 1;
                }
            },
            None => {},
        }
    }

    /// Fire an upward projectile into the cell above the player, unless
    /// dead, cooling down, invisible, or blocked by an occupant.
    pub fn shoot(&mut self, grid: &mut ShipGrid, now_ms: u64) -> (fired: bool)
        requires
            player_wf(*old(self)),
            grid_wf(*old(grid)),
        ensures
            player_wf(*final(self)),
            grid_wf(*final(grid)),
            shoot_rel(*old(self), *final(self), *old(grid), *final(grid), now_ms, fired),
    {
        if self.is_dead {
            return false;
        }

        match self.last_shot_time {
            Some(last_time) => {
                let elapsed: u64 = if now_ms >= last_time {
                    now_ms - last_time
                } else {
                    0
                };
                if elapsed < SHOT_COOLDOWN_MS {
                    return false;
                }
            },
            None => {},
        }

        match self.current_position {
            Some(pos) => {
                let bullet_coords = Cords(
                    if pos.0 > 0 {
                        pos.0 - 1
                    } else {
                        0
                    },
                    pos.1,
                );
                if grid.contains(bullet_coords) {
                    false
                } else {
                    let bullet = new_bullet_ship(false);
                    proof {
                        lemma_cell_index_bounds(bullet_coords);
                        assert(is_new_bullet_ship(bullet, false));
                    }
                    grid.insert_entity(bullet_coords, bullet);
                    self.last_shot_time = Some(now_ms);
                    true
                }
            },
            None => false,
        }
    }

    /// Take one life: at one life left this is permanent death, which
    /// resets the player to five lives and reports five; otherwise the
    /// player enters the blink state and the remaining lives are
    /// reported.
    pub fn decrease_lives(&mut self, now_ms: u64) -> (remaining: Option<u8>)
        requires
            player_wf(*old(self)),
        ensures
            player_wf(*final(self)),
            old(self).lives == 1 ==> remaining == Some(5u8) && *final(self) == full_reset(
                *old(self),
                now_ms,
            ),
            old(self).lives > 1 ==> remaining == Some((old(self).lives - 1) as u8) && *final(self)
                == life_lost(*old(self), (old(self).lives - 1) as u8, now_ms),
    {
        self.lives = self.lives - 1;
        self.is_dead = true;
        self.current_position = None;
        self.blink_count = 0;
        self.blink_timer.reset(now_ms);

        if self.lives == 0 {
            self.reset(now_ms);
            Some(5)
        } else {
            Some(self.lives)
        }
    }

    /// Full reset: five lives, dead and blinking toward respawn.
    pub fn reset(&mut self, now_ms: u64)
        ensures
            *final(self) == full_reset(*old(self), now_ms),
    {
        self.lives = 5;
        self.current_position = None;
        self.is_dead = true;
        self.blink_count = 0;
        self.blink_timer.reset(now_ms);
        self.movement_direction = 1;
        self.last_shot_time = None;
    }

    /// Adjudicate a collision between the player and the grid occupant
    /// of `pos`. A no-op while already dead, while invincible, or when
    /// the cell is empty. Otherwise a life is lost: at the last life the
    /// full-reset signal is reported and the grid is left for the caller
    /// to wipe and respawn; otherwise the collided entity is removed,
    /// crediting its tier's score if it was an enemy.
    pub fn handle_collision(
        &mut self,
        grid: &mut ShipGrid,
        pos: Cords,
        invincible: bool,
        now_ms: u64,
    ) -> (full: bool)
        requires
            player_wf(*old(self)),
            grid_wf(*old(grid)),
        ensures
            player_wf(*final(self)),
            grid_wf(*final(grid)),
            (old(self).is_dead || old(grid).spec_at(pos) is None || invincible) ==> !full
                && *final(self) == *old(self) && grid_same(*old(grid), *final(grid)),
            !(old(self).is_dead || old(grid).spec_at(pos) is None || invincible) ==> {
                &&& full == (old(self).lives == 1)
                &&& (full ==> *final(self) == full_reset(*old(self), now_ms) && grid_same(
                    *old(grid),
                    *final(grid),
                ))
                &&& (!full ==> {
                    &&& *final(self) == life_lost(*old(self), (old(self).lives - 1) as u8, now_ms)
                    &&& final(grid).score == add_score(
                        old(grid).score,
                        score_of(old(grid).spec_at(pos)->0.kind),
                    )
                    &&& final(grid).cells@ == old(grid).cells@.update(
                        cell_index_spec(pos),
                        None::<Ship>,
                    )
                })
            },
    {
        if self.is_dead || !grid.contains(pos) || invincible {
            return false;
        }

        let occupant_kind = grid.kind_at(pos);
        let was_last_life = self.lives == 1;

        let _remaining = self.decrease_lives(now_ms);

        if was_last_life {
            return true;
        }

        match occupant_kind {
            Some(kind) => {
                let pts = kind.score_value();
                grid.credit_score(pts);
            },
            None => {},
        }
        grid.remove_entity(pos);
        false
    }

    /// Advance the respawn-blink state machine: nothing while alive;
    /// while dead, each firing of the blink timer toggles visibility,
    /// and after three completed cycles the player respawns at the start
    /// position.
    pub fn update(&mut self, now_ms: u64)
        requires
            player_wf(*old(self)),
        ensures
            player_wf(*final(self)),
            !old(self).is_dead ==> *final(self) == *old(self),
            old(self).is_dead && !timer_fires(old(self).blink_timer, now_ms) ==> *final(self)
                == *old(self),
            old(self).is_dead && timer_fires(old(self).blink_timer, now_ms) ==> *final(self)
                == blink_step(*old(self), now_ms),
    {
        if self.is_dead {
            if self.blink_timer.tick(now_ms) {
                if self.current_position.is_none() {
                    self.current_position = Some(self.start_position);
                } else {
                    self.current_position = None;
                    self.blink_count = self.blink_count + 1;
                }

                self.blink_timer.reset(now_ms);

                if self.blink_count >= 3 {
                    self.is_dead = false;
                    self.current_position = Some(self.start_position);
                }
            }
        }
    }
}

} // verus!
