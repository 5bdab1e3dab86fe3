//! The engine: one simulation step applies the player's commands,
//! advances every entity's behavior program, adjudicates the player's
//! collision, and drives level progression when the board is cleared.

use vstd::prelude::*;
use crate::board::{cell_index_spec, is_enemy, lemma_cell_index_bounds, score_of, ShipKind};
use crate::geometry::{in_bounds, Cords, ROWS, COLUMNS};
use crate::geometry::ShipAction;
use crate::grid::{
    add_score, apply_actions_rel, enemy_count, explosion_count, grid_same, grid_wf, kind_opt,
    lemma_enemy_count_zero, lemma_explosion_count_zero, occupied_count, phase1_rel, ShipGrid,
};
use crate::player::{
    blink_step, full_reset, life_lost, moved_left, moved_right, player_wf, shoot_rel, Player,
};
use crate::timer::timer_fires;
use crate::settings::Settings;
use crate::ship::Ship;
use crate::spawner::{fly_count_spec, is_formation_of, level_up, spawn_count, FlySpawner};

verus! {

/// The player commands one step applies, decoded by the driver.
#[derive(Clone, Copy, PartialEq, Eq, Structural, Debug)]
pub struct Commands {
    pub move_left: bool,
    pub move_right: bool,
    pub shoot: bool,
}

/// What one step reports upward for rendering and control.
#[derive(Clone, Copy, PartialEq, Eq, Structural, Debug)]
pub struct StepReport {
    pub score: u32,
    pub level: u32,
    pub player_full_reset: bool,
    pub level_advanced: bool,
}

/// The whole simulation: the grid (entities and score), the player, and
/// the formation generator.
pub struct Game {
    pub grid: ShipGrid,
    pub player: Player,
    pub spawner: FlySpawner,
}

/// The grid and the player are well formed.
pub open spec fn game_wf(g: Game) -> bool {
    grid_wf(g.grid) && player_wf(g.player)
}

/// How the player's collision adjudication relates the player and grid
/// before and after (mirrors `Player::handle_collision`).
pub open spec fn collision_rel(
    p0: Player,
    g0: ShipGrid,
    p1: Player,
    g1: ShipGrid,
    pos: Cords,
    invincible: bool,
    now: u64,
    full: bool,
) -> bool {
    &&& ((p0.is_dead || g0.spec_at(pos) is None || invincible) ==> !full && p1 == p0 && grid_same(
        g0,
        g1,
    ))
    &&& (!(p0.is_dead || g0.spec_at(pos) is None || invincible) ==> {
        &&& full == (p0.lives == 1)
        &&& (full ==> p1 == full_reset(p0, now) && grid_same(g0, g1))
        &&& (!full ==> {
            &&& p1 == life_lost(p0, (p0.lives - 1) as u8, now)
            &&& g1.score == add_score(g0.score, score_of(g0.spec_at(pos)->0.kind))
            &&& g1.cells@ == g0.cells@.update(cell_index_spec(pos), None::<Ship>)
        })
    })
}

/// The player after the pre-command update stage of a step: one firing
/// of the blink state machine, when it is due.
pub open spec fn player_updated(p: Player, now: u64) -> Player {
    if p.is_dead && timer_fires(p.blink_timer, now) {
        blink_step(p, now)
    } else {
        p
    }
}

/// The player after the optional move commands.
pub open spec fn commands_moved(p: Player, cmds: Commands) -> Player {
    let p1 = if cmds.move_left {
        moved_left(p)
    } else {
        p
    };
    if cmds.move_right {
        moved_right(p1)
    } else {
        p1
    }
}

/// How the command stage relates player and grid before and after: the
/// moves apply as pure functions, and a shoot command attempts one shot.
pub open spec fn commands_rel(
    p0: Player,
    g0: ShipGrid,
    p1: Player,
    g1: ShipGrid,
    cmds: Commands,
    now: u64,
) -> bool {
    let pm = commands_moved(p0, cmds);
    if cmds.shoot {
        exists|fired: bool| #[trigger] shoot_rel(pm, p1, g0, g1, now, fired)
    } else {
        p1 == pm && g1 == g0
    }
}

/// How the resolver stage relates the grid before and after: a snapshot
/// pass recording every entity's decision, then the recorded pass
/// applied in order.
pub open spec fn process_rel(g0: ShipGrid, g1: ShipGrid, s: Settings, now: u64) -> bool {
    exists|actions: Seq<(Cords, ShipAction)>, mid: ShipGrid|
        {
            &&& #[trigger] phase1_rel(g0, mid, actions, s, now)
            &&& apply_actions_rel(mid, g1, actions)
        }
}

/// How the collision stage relates the whole game before and after: no
/// visible player means no collision; otherwise the adjudication of
/// `collision_rel`, and on permanent death the first level respawns with
/// the score kept.
pub open spec fn collision_stage_rel(
    pre: Game,
    post: Game,
    died: bool,
    invincible: bool,
    now: u64,
) -> bool {
    &&& (pre.player.current_position is None ==> !died && post == pre)
    &&& (pre.player.current_position is Some && !died ==> post.spawner == pre.spawner
        && collision_rel(
        pre.player,
        pre.grid,
        post.player,
        post.grid,
        pre.player.current_position->0,
        invincible,
        now,
        false,
    ))
    &&& (pre.player.current_position is Some && died ==> {
        &&& pre.player.lives == 1
        &&& !pre.player.is_dead
        &&& !invincible
        &&& pre.grid.spec_at(pre.player.current_position->0) is Some
        &&& post.player == full_reset(pre.player, now)
        &&& post.grid.score == pre.grid.score
        &&& post.spawner.current_level == 1
        &&& post.spawner.flies_per_level_base == pre.spawner.flies_per_level_base
        &&& is_formation_of(
            post.grid.cells@,
            fly_count_spec(pre.spawner.flies_per_level_base, 1),
            1,
        )
        &&& occupied_count(post.grid.cells@) == spawn_count(
            fly_count_spec(pre.spawner.flies_per_level_base, 1),
        )
    })
}

/// No cell of the grid holds an enemy or an explosion: only projectiles
/// may remain.
pub open spec fn board_cleared(g: ShipGrid) -> bool {
    forall|c: Cords|
        in_bounds(c) ==> (match #[trigger] g.spec_at(c) {
            Some(s) => !is_enemy(s.kind) && s.kind != ShipKind::Explosion,
            None => true,
        })
}

/// How the level-completion stage relates the whole game before and
/// after: a cleared board (no enemy, no explosion) starts the next
/// level's formation with the score kept; anything else is a no-op.
pub open spec fn level_stage_rel(pre: Game, post: Game, started: bool) -> bool {
    &&& started == board_cleared(pre.grid)
    &&& (!started ==> post == pre)
    &&& (started ==> {
        &&& post.player == pre.player
        &&& post.grid.score == pre.grid.score
        &&& post.spawner.current_level == level_up(pre.spawner.current_level)
        &&& post.spawner.flies_per_level_base == pre.spawner.flies_per_level_base
        &&& is_formation_of(
            post.grid.cells@,
            fly_count_spec(pre.spawner.flies_per_level_base, level_up(pre.spawner.current_level)),
            level_up(pre.spawner.current_level),
        )
        &&& occupied_count(post.grid.cells@) == spawn_count(
            fly_count_spec(pre.spawner.flies_per_level_base, level_up(pre.spawner.current_level)),
        )
    })
}

impl Game {
    /// A fresh game: a level-one formation of the configured number of
    /// enemies, a five-life player, and a zero score.
    pub fn new(settings: &Settings, now_ms: u64) -> (g: Game)
        ensures
            game_wf(g),
            g.grid.score == 0,
            g.spawner.current_level == 1,
            g.spawner.flies_per_level_base == 10,
            g.player.lives == 5,
            !g.player.is_dead,
            is_formation_of(g.grid.cells@, settings.number_of_flies, 1),
            occupied_count(g.grid.cells@) == spawn_count(settings.number_of_flies),
    {
        let mut grid = ShipGrid::new();
        let mut spawner = FlySpawner::new();
        let cells = spawner.spawn_flies(settings.number_of_flies);
        grid.set_entities(cells);
        Game { grid, player: Player::new(now_ms), spawner }
    }

    /// The running score.
    pub fn get_score(&self) -> (s: u32)
        ensures
            s == self.grid.score,
    {
        self.grid.score
    }

    /// Wipe the board and respawn the first level's formation for the
    /// level counter reset to one; the score is kept.
    fn spawn_initial_flies(&mut self)
        requires
            game_wf(*old(self)),
        ensures
            game_wf(*final(self)),
            final(self).player == old(self).player,
            final(self).grid.score == old(self).grid.score,
            final(self).spawner.current_level == 1,
            final(self).spawner.flies_per_level_base == old(self).spawner.flies_per_level_base,
            is_formation_of(
                final(self).grid.cells@,
                fly_count_spec(old(self).spawner.flies_per_level_base, 1),
                1,
            ),
            occupied_count(final(self).grid.cells@) == spawn_count(
                fly_count_spec(old(self).spawner.flies_per_level_base, 1),
            ),
    {
        self.spawner.reset_level();
        self.grid.clear();
        let fly_count = self.spawner.get_current_fly_count();
        let cells = self.spawner.spawn_flies(fly_count);
        self.grid.set_entities(cells);
    }

    /// Adjudicate the player's collision with the grid occupant of the
    /// player's own cell. On permanent death (the full-reset signal) the
    /// level restarts at one with a fresh first formation; the score is
    /// kept.
    pub fn handle_player_actions(&mut self, settings: &Settings, now_ms: u64) -> (player_died:
        bool)
        requires
            game_wf(*old(self)),
        ensures
            game_wf(*final(self)),
            collision_stage_rel(
                *old(self),
                *final(self),
                player_died,
                settings.invincible,
                now_ms,
            ),
    {
        let mut player_died = false;

        match self.player.current_position {
            Some(pos) => {
                player_died = self.player.handle_collision(
                    &mut self.grid,
                    pos,
                    settings.invincible,
                    now_ms,
                );

                if player_died {
                    self.spawn_initial_flies();
                }
            },
            None => {},
        }

        player_died
    }

    /// When no enemy and no explosion remains, the next level begins:
    /// the level counter steps up and its formation, owed the base count
    /// plus the new level, replaces the board; the score is kept.
    pub fn check_for_level_completion(&mut self) -> (started: bool)
        requires
            game_wf(*old(self)),
        ensures
            game_wf(*final(self)),
            level_stage_rel(*old(self), *final(self), started),
    {
        let enemies = self.grid.count_enemies();
        let explosions = self.grid.count_explosions();

        proof {
            lemma_enemy_count_zero(self.grid.cells@, self.grid.cells@.len() as int);
            lemma_explosion_count_zero(self.grid.cells@, self.grid.cells@.len() as int);
            if enemies == 0 && explosions == 0 {
                assert forall|c: Cords|
                    in_bounds(c) implies (match #[trigger] self.grid.spec_at(c) {
                    Some(s) => !is_enemy(s.kind) && s.kind != ShipKind::Explosion,
                    None => true,
                }) by {
                    lemma_cell_index_bounds(c);
                }
            } else {
                if board_cleared(self.grid) {
                    assert forall|j: int|
                        0 <= j < self.grid.cells@.len() implies !(match #[trigger] self
                        .grid
                        .cells@[j] {
                        Some(s) => is_enemy(s.kind),
                        None => false,
                    }) && !(match self.grid.cells@[j] {
                        Some(s) => s.kind == ShipKind::Explosion,
                        None => false,
                    }) by {
                        let c = crate::grid::cords_of_index_spec(j);
                        crate::grid::lemma_index_round_trip(j);
                        assert(self.grid.spec_at(c) == self.grid.cells@[j]);
                    }
                    assert(false);
                }
            }
        }

        if enemies == 0 && explosions == 0 {
            let cells = self.spawner.spawn_next_level();
            self.grid.set_entities(cells);
            true
        } else {
            false
        }
    }

    /// One simulation step: the blink state machine and the player
    /// commands run first, then every entity's behavior program against
    /// one consistent snapshot, then the player's collision, then the
    /// level-completion check.
    pub fn step(&mut self, commands: Commands, settings: &Settings, now_ms: u64) -> (report:
        StepReport)
        requires
            game_wf(*old(self)),
        ensures
            game_wf(*final(self)),
            report.score == final(self).grid.score,
            report.level == final(self).spawner.current_level,
            final(self).grid.score >= old(self).grid.score,
            exists|after_cmds: Game, after_process: Game, after_collision: Game, died: bool, started: bool|
                {
                    &&& #[trigger] commands_rel(
                        player_updated(old(self).player, now_ms),
                        old(self).grid,
                        after_cmds.player,
                        after_cmds.grid,
                        commands,
                        now_ms,
                    )
                    &&& after_cmds.spawner == old(self).spawner
                    &&& #[trigger] process_rel(
                        after_cmds.grid,
                        after_process.grid,
                        *settings,
                        now_ms,
                    )
                    &&& after_process.player == after_cmds.player
                    &&& after_process.spawner == after_cmds.spawner
                    &&& #[trigger] collision_stage_rel(
                        after_process,
                        after_collision,
                        died,
                        settings.invincible,
                        now_ms,
                    )
                    &&& #[trigger] level_stage_rel(after_collision, *final(self), started)
                    &&& report == (StepReport {
                        score: final(self).grid.score,
                        level: final(self).spawner.current_level,
                        player_full_reset: died,
                        level_advanced: started,
                    })
                },
    {
        self.player.update(now_ms);
        if commands.move_left {
            self.player.move_left();
        }
        if commands.move_right {
            self.player.move_right();
        }
        if commands.shoot {
            let _ = self.player.shoot(&mut self.grid, now_ms);
        }
        let ghost after_cmds: Game = *self;

        self.grid.process_ship_actions(settings, now_ms);
        let ghost after_process: Game = *self;

        let player_full_reset = self.handle_player_actions(settings, now_ms);
        let ghost after_collision: Game = *self;

        let level_advanced = self.check_for_level_completion();

        let report = StepReport {
            score: self.get_score(),
            level: self.spawner.current_level,
            player_full_reset,
            level_advanced,
        };
        proof {
            assert(commands_rel(
                player_updated(old(self).player, now_ms),
                old(self).grid,
                after_cmds.player,
                after_cmds.grid,
                commands,
                now_ms,
            ));
            assert(process_rel(after_cmds.grid, after_process.grid, *settings, now_ms));
            assert(collision_stage_rel(
                after_process,
                after_collision,
                player_full_reset,
                settings.invincible,
                now_ms,
            ));
            assert(level_stage_rel(after_collision, *self, level_advanced));
        }
        report
    }

    /// A render snapshot: every occupied cell with its occupant's kind,
    /// in row-major order.
    pub fn entities(&self) -> (v: Vec<(Cords, ShipKind)>)
        requires
            game_wf(*self),
        ensures
            forall|k: int|
                0 <= k < v@.len() ==> in_bounds((#[trigger] v@[k]).0) && kind_opt(
                    self.grid.spec_at(v@[k].0),
                ) == Some(v@[k].1),
            forall|c: Cords|
                in_bounds(c) && self.grid.spec_at(c) is Some ==> exists|k: int|
                    0 <= k < v@.len() && (#[trigger] v@[k]).0 == c,
    {
        let board = self.grid.snapshot_board();
        let mut v: Vec<(Cords, ShipKind)> = Vec::new();
        let mut row: usize = 0;
        while row < ROWS
            invariant
                game_wf(*self),
                row <= ROWS,
                crate::board::board_wf(board),
                crate::grid::board_matches(board, self.grid),
                forall|k: int|
                    0 <= k < v@.len() ==> in_bounds((#[trigger] v@[k]).0) && kind_opt(
                        self.grid.spec_at(v@[k].0),
                    ) == Some(v@[k].1),
                forall|c: Cords|
                    in_bounds(c) && c.0 < row && self.grid.spec_at(c) is Some ==> exists|k: int|
                        0 <= k < v@.len() && (#[trigger] v@[k]).0 == c,
            decreases ROWS - row,
        {
            let mut col: usize = 0;
            while col < COLUMNS
                invariant
                    game_wf(*self),
                    row < ROWS,
                    col <= COLUMNS,
                    crate::board::board_wf(board),
                    crate::grid::board_matches(board, self.grid),
                    forall|k: int|
                        0 <= k < v@.len() ==> in_bounds((#[trigger] v@[k]).0) && kind_opt(
                            self.grid.spec_at(v@[k].0),
                        ) == Some(v@[k].1),
                    forall|c: Cords|
                        in_bounds(c) && (c.0 < row || (c.0 == row && c.1 < col))
                            && self.grid.spec_at(c) is Some ==> exists|k: int|
                            0 <= k < v@.len() && (#[trigger] v@[k]).0 == c,
                decreases COLUMNS - col,
            {
                let c = Cords(row, col);
                let ghost prev = v@;
                match board.at(c) {
                    Some(kind) => {
                        v.push((c, kind));
                    },
                    None => {},
                }
                proof {
                    assert forall|d: Cords|
                        in_bounds(d) && (d.0 < row || (d.0 == row && d.1 < col + 1))
                            && self.grid.spec_at(d) is Some implies exists|k: int|
                        0 <= k < v@.len() && (#[trigger] v@[k]).0 == d by {
                        if d == c {
                            assert(v@[v@.len() - 1].0 == c);
                        } else {
                            let k0 = choose|k: int|
                                0 <= k < prev.len() && (#[trigger] prev[k]).0 == d;
                            assert(v@[k0] == prev[k0]);
                        }
                    }
                }
                col = col + 1;
            }
            row = row + 1;
        }
        v
    }
}

} // verus!
