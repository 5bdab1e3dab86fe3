use fly_shooter::board::ShipKind;
use fly_shooter::control::{MessageProcessor, PadType};
use fly_shooter::game::{Commands, Game};
use fly_shooter::geometry::{Cords, ShipAction, COLUMNS, ROWS};
use fly_shooter::grid::{GridError, ShipGrid};
use fly_shooter::player::Player;
use fly_shooter::settings::Settings;
use fly_shooter::ship::{new_b2_fly_ship, new_bullet_ship, new_fly_ship, new_tiki_fly_ship};
use fly_shooter::spawner::FlySpawner;

fn occupied_cells(grid: &ShipGrid) -> Vec<(Cords, ShipKind)> {
    let mut v = Vec::new();
    for row in 0..ROWS {
        for col in 0..COLUMNS {
            let c = Cords(row, col);
            if let Some(kind) = grid.kind_at(c) {
                v.push((c, kind));
            }
        }
    }
    v
}

#[test]
fn bullet_collision_scores_b2_fly() {
    let mut grid = ShipGrid::new();
    grid.insert_entity(Cords(5, 5), new_bullet_ship(true));
    grid.insert_entity(Cords(6, 5), new_b2_fly_ship());

    let r = grid.move_entity(Cords(5, 5), Cords(6, 5), false);
    assert!(matches!(r, Ok(Some(ShipKind::B2Fly))));
    // Exactly 300 points for the strongest tier.
    assert_eq!(grid.score, 300);
    // The bullet is consumed and an explosion replaces the victim.
    assert_eq!(grid.kind_at(Cords(5, 5)), None);
    assert_eq!(grid.kind_at(Cords(6, 5)), Some(ShipKind::Explosion));
}

#[test]
fn bullet_collision_tier_scores() {
    let cases: Vec<(fn() -> fly_shooter::ship::Ship, u32)> = vec![
        (new_fly_ship, 100),
        (new_tiki_fly_ship, 150),
        (new_b2_fly_ship, 300),
    ];
    for (make, pts) in cases {
        let mut grid = ShipGrid::new();
        grid.insert_entity(Cords(4, 4), new_bullet_ship(true));
        grid.insert_entity(Cords(5, 4), make());
        let r = grid.move_entity(Cords(4, 4), Cords(5, 4), false);
        assert!(r.is_ok());
        assert_eq!(grid.score, pts);
    }
}

#[test]
fn nonbullet_mutual_moves_are_rejected() {
    let mut grid = ShipGrid::new();
    grid.insert_entity(Cords(2, 2), new_fly_ship());
    grid.insert_entity(Cords(2, 3), new_tiki_fly_ship());

    let actions = vec![
        (Cords(2, 2), ShipAction::Move(Cords(2, 3), false)),
        (Cords(2, 3), ShipAction::Move(Cords(2, 2), false)),
    ];
    grid.execute_actions(&actions);

    // Both movers stay where they were; nothing is destroyed or scored.
    assert_eq!(grid.kind_at(Cords(2, 2)), Some(ShipKind::Fly));
    assert_eq!(grid.kind_at(Cords(2, 3)), Some(ShipKind::TikiFly));
    assert_eq!(occupied_cells(&grid).len(), 2);
    assert_eq!(grid.score, 0);
}

#[test]
fn move_errors() {
    let mut grid = ShipGrid::new();
    let r = grid.move_entity(Cords(1, 1), Cords(2, 2), false);
    assert!(matches!(r, Err(GridError::SourceEmpty)));

    grid.insert_entity(Cords(1, 1), new_fly_ship());
    grid.insert_entity(Cords(2, 2), new_fly_ship());
    let r = grid.move_entity(Cords(1, 1), Cords(2, 2), false);
    assert!(matches!(r, Err(GridError::TargetOccupied)));
    assert_eq!(grid.kind_at(Cords(1, 1)), Some(ShipKind::Fly));
    assert_eq!(grid.kind_at(Cords(2, 2)), Some(ShipKind::Fly));
}

#[test]
fn wrapping_bullet_vanishes() {
    let mut grid = ShipGrid::new();
    grid.insert_entity(Cords(0, 5), new_bullet_ship(false));
    let r = grid.move_entity(Cords(0, 5), Cords(ROWS - 1, 5), true);
    assert!(matches!(r, Ok(None)));
    assert!(occupied_cells(&grid).is_empty());
}

#[test]
fn wrapping_fly_blocked_at_midline() {
    let mut grid = ShipGrid::new();
    grid.insert_entity(Cords(0, 5), new_fly_ship());
    // Wrapping from the top row to the bottom row would cross the
    // midline downward-by-wrap; the move is blocked.
    let r = grid.move_entity(Cords(0, 5), Cords(ROWS - 1, 5), true);
    assert!(matches!(r, Ok(None)));
    assert_eq!(grid.kind_at(Cords(0, 5)), Some(ShipKind::Fly));
}

#[test]
fn wrapping_fly_relocates_when_not_blocked() {
    let mut grid = ShipGrid::new();
    grid.insert_entity(Cords(3, COLUMNS - 1), new_fly_ship());
    // A horizontal wrap does not cross the midline; the fly relocates.
    let r = grid.move_entity(Cords(3, COLUMNS - 1), Cords(3, 0), true);
    assert!(matches!(r, Ok(None)));
    assert_eq!(grid.kind_at(Cords(3, 0)), Some(ShipKind::Fly));
    assert_eq!(grid.kind_at(Cords(3, COLUMNS - 1)), None);
}

#[test]
fn shoot_action_inserts_bullet_below() {
    let mut grid = ShipGrid::new();
    grid.insert_entity(Cords(2, 5), new_fly_ship());
    let actions = vec![(Cords(2, 5), ShipAction::Shoot)];
    grid.execute_actions(&actions);
    assert_eq!(grid.kind_at(Cords(3, 5)), Some(ShipKind::Bullet(true)));
}

#[test]
fn remove_action_credits_enemy_score() {
    let mut grid = ShipGrid::new();
    grid.insert_entity(Cords(2, 5), new_tiki_fly_ship());
    let actions = vec![(Cords(2, 5), ShipAction::Remove)];
    grid.execute_actions(&actions);
    assert_eq!(grid.kind_at(Cords(2, 5)), None);
    assert_eq!(grid.score, 150);
}

#[test]
fn clear_keeps_score() {
    let mut grid = ShipGrid::new();
    grid.insert_entity(Cords(2, 5), new_fly_ship());
    grid.credit_score(250);
    grid.clear();
    assert!(occupied_cells(&grid).is_empty());
    assert_eq!(grid.score, 250);
}

#[test]
fn explosion_expires_after_its_second() {
    let mut grid = ShipGrid::new();
    let settings = Settings::new();
    grid.insert_entity(Cords(4, 4), fly_shooter::ship::new_explosion_ship());

    // The first tick starts the stopwatch; well before a second nothing
    // happens.
    grid.process_ship_actions(&settings, 0);
    assert_eq!(grid.kind_at(Cords(4, 4)), Some(ShipKind::Explosion));
    grid.process_ship_actions(&settings, 999);
    assert_eq!(grid.kind_at(Cords(4, 4)), Some(ShipKind::Explosion));

    // Once the second has elapsed the explosion removes itself.
    grid.process_ship_actions(&settings, 1000);
    assert_eq!(grid.kind_at(Cords(4, 4)), None);
}

#[test]
fn bullet_travels_at_laser_speed() {
    let mut grid = ShipGrid::new();
    let mut settings = Settings::new();
    settings.laser_speed_ms = 100;
    grid.insert_entity(Cords(5, 5), new_bullet_ship(true));

    grid.process_ship_actions(&settings, 0);
    assert_eq!(grid.kind_at(Cords(5, 5)), Some(ShipKind::Bullet(true)));

    grid.process_ship_actions(&settings, 100);
    assert_eq!(grid.kind_at(Cords(5, 5)), None);
    assert_eq!(grid.kind_at(Cords(6, 5)), Some(ShipKind::Bullet(true)));
}

#[test]
fn zero_randomness_never_shoots() {
    let mut settings = Settings::new();
    settings.shooting_randomness = 0;
    settings.fly_speed_ms = 10;
    let mut game = Game::new(&settings, 0);
    let quiet = Commands { move_left: false, move_right: false, shoot: false };
    for k in 0..20u64 {
        game.step(quiet, &settings, k * 10);
    }
    for (_, kind) in game.entities() {
        assert!(!matches!(kind, ShipKind::Bullet(_)));
    }
}

#[test]
fn bullet_leaving_the_bottom_is_cleaned_up() {
    let mut grid = ShipGrid::new();
    let mut settings = Settings::new();
    settings.laser_speed_ms = 10;
    grid.insert_entity(Cords(ROWS - 1, 3), new_bullet_ship(true));
    grid.process_ship_actions(&settings, 0);
    grid.process_ship_actions(&settings, 10);
    assert!(occupied_cells(&grid).is_empty());
    assert_eq!(grid.score, 0);
}

#[test]
fn spawn_flies_caps_at_requested_count() {
    let mut spawner = FlySpawner::new();
    let cells = spawner.spawn_flies(4);
    let mut grid = ShipGrid::new();
    grid.set_entities(cells);

    let occ = occupied_cells(&grid);
    // Exactly four entities, at the apex and the three cells of the
    // second tier.
    assert_eq!(occ.len(), 4);
    assert!(grid.kind_at(Cords(0, 8)).is_some());
    assert!(grid.kind_at(Cords(1, 7)).is_some());
    assert!(grid.kind_at(Cords(1, 8)).is_some());
    assert!(grid.kind_at(Cords(1, 9)).is_some());
}

#[test]
fn spawn_flies_at_level_one_downgrades_all_tiers() {
    let mut spawner = FlySpawner::new();
    let cells = spawner.spawn_flies(10);
    let mut grid = ShipGrid::new();
    grid.set_entities(cells);
    for (_, kind) in occupied_cells(&grid) {
        assert_eq!(kind, ShipKind::Fly);
    }
}

#[test]
fn spawn_flies_upgrades_tiers_with_level() {
    let mut spawner = FlySpawner::new();
    spawner.current_level = 4;
    let cells = spawner.spawn_flies(10);
    let mut grid = ShipGrid::new();
    grid.set_entities(cells);
    // The apex is the strongest tier once level four is reached.
    assert_eq!(grid.kind_at(Cords(0, 8)), Some(ShipKind::B2Fly));
    // The second ring holds the third tier from level three on.
    assert_eq!(grid.kind_at(Cords(1, 7)), Some(ShipKind::NorthropFly));
    // The third ring holds the second tier from level two on.
    assert_eq!(grid.kind_at(Cords(2, 7)), Some(ShipKind::TikiFly));
    // The fourth ring is always the weakest.
    assert_eq!(grid.kind_at(Cords(3, 6)), Some(ShipKind::Fly));
}

#[test]
fn spawn_flies_caps_at_capacity() {
    let mut spawner = FlySpawner::new();
    let cells = spawner.spawn_flies(1000);
    let mut grid = ShipGrid::new();
    grid.set_entities(cells);
    assert_eq!(occupied_cells(&grid).len(), 10 + 2 * COLUMNS);
}

#[test]
fn spawner_levels_and_reset() {
    let mut spawner = FlySpawner::new();
    assert_eq!(spawner.current_level, 1);
    assert_eq!(spawner.get_current_fly_count(), 11);
    let cells = spawner.spawn_next_level();
    assert_eq!(spawner.current_level, 2);
    assert_eq!(spawner.get_current_fly_count(), 12);
    let mut grid = ShipGrid::new();
    grid.set_entities(cells);
    assert_eq!(occupied_cells(&grid).len(), 12);
    spawner.reset_level();
    assert_eq!(spawner.current_level, 1);
}

#[test]
fn player_death_cycle_full_reset() {
    let mut grid = ShipGrid::new();
    let mut player = Player::new(0);
    player.lives = 1;
    let pos = player.current_position.unwrap();
    grid.insert_entity(pos, new_fly_ship());

    // The last life: the collision reports the full-reset signal and the
    // lives are restored to five.
    let full = player.handle_collision(&mut grid, pos, false, 0);
    assert!(full);
    assert_eq!(player.lives, 5);
    assert!(player.is_dead);
    assert_eq!(player.current_position, None);

    // Exactly three blink cycles of the 50 ms blink interval later the
    // player stands respawned at the start position.
    let mut fires = 0;
    let mut now = 0;
    while player.is_dead {
        now += 50;
        player.update(now);
        fires += 1;
        assert!(fires <= 6);
    }
    assert_eq!(fires, 6);
    assert_eq!(player.current_position, Some(player.start_position));
    assert_eq!(player.blink_count, 3);
}

#[test]
fn player_collision_with_lives_left_removes_entity() {
    let mut grid = ShipGrid::new();
    let mut player = Player::new(0);
    let pos = player.current_position.unwrap();
    grid.insert_entity(pos, new_fly_ship());

    let full = player.handle_collision(&mut grid, pos, false, 0);
    assert!(!full);
    assert_eq!(player.lives, 4);
    assert!(player.is_dead);
    // The collided enemy is removed and credited.
    assert_eq!(grid.kind_at(pos), None);
    assert_eq!(grid.score, 100);
}

#[test]
fn player_collision_respects_invincibility() {
    let mut grid = ShipGrid::new();
    let mut player = Player::new(0);
    let pos = player.current_position.unwrap();
    grid.insert_entity(pos, new_fly_ship());

    let full = player.handle_collision(&mut grid, pos, true, 0);
    assert!(!full);
    assert_eq!(player.lives, 5);
    assert!(!player.is_dead);
    assert!(grid.kind_at(pos).is_some());
}

#[test]
fn player_moves_clamp_at_edges() {
    let mut player = Player::new(0);
    let start = player.current_position.unwrap();
    player.move_left();
    assert_eq!(player.current_position, Some(Cords(start.0, start.1 - 1)));
    for _ in 0..COLUMNS {
        player.move_left();
    }
    assert_eq!(player.current_position, Some(Cords(start.0, 0)));
    for _ in 0..(2 * COLUMNS) {
        player.move_right();
    }
    assert_eq!(player.current_position, Some(Cords(start.0, COLUMNS - 1)));

    player.is_dead = true;
    player.move_left();
    assert_eq!(player.current_position, Some(Cords(start.0, COLUMNS - 1)));
}

#[test]
fn player_shoot_cooldown() {
    let mut grid = ShipGrid::new();
    let mut player = Player::new(0);
    let pos = player.current_position.unwrap();

    assert!(player.shoot(&mut grid, 10));
    assert_eq!(
        grid.kind_at(Cords(pos.0 - 1, pos.1)),
        Some(ShipKind::Bullet(false))
    );

    // Within the two-second window the second shot is rejected, even
    // after the first bullet's cell is free again.
    grid.clear();
    assert!(!player.shoot(&mut grid, 500));
    assert!(grid.kind_at(Cords(pos.0 - 1, pos.1)).is_none());

    // After the window it fires again.
    assert!(player.shoot(&mut grid, 2010));
    assert!(grid.kind_at(Cords(pos.0 - 1, pos.1)).is_some());
}

#[test]
fn player_shoot_blocked_by_occupant() {
    let mut grid = ShipGrid::new();
    let mut player = Player::new(0);
    let pos = player.current_position.unwrap();
    grid.insert_entity(Cords(pos.0 - 1, pos.1), new_fly_ship());
    assert!(!player.shoot(&mut grid, 10));
    assert_eq!(grid.kind_at(Cords(pos.0 - 1, pos.1)), Some(ShipKind::Fly));
}

#[test]
fn message_processor_applies_pads() {
    let mp = MessageProcessor::new(600);
    assert_eq!(mp.pressure_threshold, 600);
    let mut grid = ShipGrid::new();
    let mut player = Player::new(0);
    let start = player.current_position.unwrap();

    mp.handle_active_pad(&PadType::Left, &mut player, &mut grid, 0);
    assert_eq!(player.current_position, Some(Cords(start.0, start.1 - 1)));
    mp.handle_active_pad(&PadType::Right, &mut player, &mut grid, 0);
    assert_eq!(player.current_position, Some(start));
    mp.handle_active_pad(&PadType::Shoot, &mut player, &mut grid, 10);
    assert!(grid.kind_at(Cords(start.0 - 1, start.1)).is_some());
}

#[test]
fn level_completion_spawns_next_formation() {
    let mut settings = Settings::new();
    settings.number_of_flies = 0;
    let mut game = Game::new(&settings, 0);
    assert_eq!(game.spawner.current_level, 1);
    assert!(game.entities().is_empty());

    // With no enemies and no explosions the next step must request the
    // next level's formation: base count plus the new level.
    let report = game.step(
        Commands { move_left: false, move_right: false, shoot: false },
        &settings,
        0,
    );
    assert_eq!(report.level, 2);
    assert!(report.level_advanced);
    assert_eq!(game.spawner.current_level, 2);
    assert_eq!(
        game.entities().len() as u32,
        game.spawner.flies_per_level_base + 2
    );
}

#[test]
fn level_not_completed_while_enemies_remain() {
    let settings = Settings::new();
    let mut game = Game::new(&settings, 0);
    let before = game.spawner.current_level;
    let report = game.step(
        Commands { move_left: false, move_right: false, shoot: false },
        &settings,
        0,
    );
    assert_eq!(report.level, before);
    assert!(!report.level_advanced);
}

#[test]
fn fresh_game_holds_configured_formation() {
    let settings = Settings::new();
    let game = Game::new(&settings, 0);
    assert_eq!(game.entities().len() as u32, settings.number_of_flies);
    assert_eq!(game.get_score(), 0);
    assert_eq!(game.player.lives, 5);
}

#[test]
fn full_player_death_restarts_level_and_keeps_score() {
    let settings = Settings::new();
    let mut game = Game::new(&settings, 0);
    game.grid.credit_score(450);
    game.player.lives = 1;
    let pos = game.player.current_position.unwrap();
    game.grid.insert_entity(pos, new_fly_ship());

    let died = game.handle_player_actions(&settings, 0);
    assert!(died);
    assert_eq!(game.player.lives, 5);
    assert_eq!(game.spawner.current_level, 1);
    assert_eq!(game.get_score(), 450);
    // The board was wiped and respawned with the first level's count.
    assert_eq!(
        game.entities().len() as u32,
        game.spawner.flies_per_level_base + 1
    );
}
