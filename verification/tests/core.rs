use fly_shooter::behavior::{AIAction, DurationSelector, ShipAI};
use fly_shooter::board::{Board, ShipKind};
use fly_shooter::behavior::random_shoot_decision;
use fly_shooter::geometry::{Cords, RelCords, ShipAction, COLUMNS, ROWS};
use fly_shooter::settings::{ButtonAction, Settings};
use fly_shooter::ship::{new_b2_fly_ship, new_bullet_ship, new_explosion_ship, new_fly_ship};
use fly_shooter::timer::Timer;

#[test]
fn wrap_evaluate_stays_in_bounds() {
    let (c, wrapped) = RelCords(1, 1).evaluate(Cords(2, 2));
    assert_eq!(c, Cords(3, 3));
    assert!(!wrapped);

    let (c, wrapped) = RelCords(0, 0).evaluate(Cords(0, 0));
    assert_eq!(c, Cords(0, 0));
    assert!(!wrapped);
}

#[test]
fn wrap_evaluate_wraps_at_edges() {
    // Off the bottom: clamped to the top row.
    let (c, wrapped) = RelCords(1, 0).evaluate(Cords(ROWS - 1, 5));
    assert_eq!(c, Cords(0, 5));
    assert!(wrapped);

    // Off the top: clamped to the last row.
    let (c, wrapped) = RelCords(-1, 0).evaluate(Cords(0, 3));
    assert_eq!(c, Cords(ROWS - 1, 3));
    assert!(wrapped);

    // Off the left edge: clamped to the last column.
    let (c, wrapped) = RelCords(0, -1).evaluate(Cords(4, 0));
    assert_eq!(c, Cords(4, COLUMNS - 1));
    assert!(wrapped);

    // Off the right edge: clamped to the first column.
    let (c, wrapped) = RelCords(0, 1).evaluate(Cords(4, COLUMNS - 1));
    assert_eq!(c, Cords(4, 0));
    assert!(wrapped);

    // A large offset still lands in bounds.
    let (c, wrapped) = RelCords(100, -100).evaluate(Cords(4, 4));
    assert!(c.0 < ROWS && c.1 < COLUMNS);
    assert!(wrapped);
}

#[test]
fn timer_fires_after_interval() {
    let mut t = Timer::new(100, 0);
    assert!(!t.tick(50));
    assert!(t.tick(100));
    assert!(!t.tick(150));
    assert!(t.tick(200));
    assert!(t.is_active());
}

#[test]
fn timer_deactivates_after_max_fires() {
    let mut t = Timer::new_with_duration(10, 2, "twice", 0);
    assert!(t.tick(10));
    assert!(t.is_active());
    assert_eq!(t.remaining(), 1);
    assert!(t.tick(20));
    assert!(!t.is_active());
    assert!(!t.tick(1000));
    t.start(1000);
    assert!(t.is_active());
    assert!(t.tick(1010));
}

#[test]
fn timer_logic_tick_expires() {
    let mut t = Timer::new_with_duration(0, 3, "count", 0);
    assert!(!t.logic_tick());
    assert!(!t.logic_tick());
    assert!(t.logic_tick());
    assert!(!t.is_active());
    assert!(!t.logic_tick());
}

#[test]
fn timer_name_and_setters() {
    let mut t = Timer::new(5, 0);
    assert_eq!(t.name(), "");
    t.set_name("cooldown");
    assert_eq!(t.name(), "cooldown");
    t.set_interval(7);
    t.set_duration(9);
    assert_eq!(t.remaining(), 9);
    t.stop();
    assert!(!t.is_active());
    assert_eq!(t.remaining(), 0);
}

#[test]
fn timed_gate_blocks_until_duration() {
    // A two-step program: a shot gated behind a fixed five-millisecond
    // duration, then an idle step. Until the duration has elapsed the
    // timed step must yield no-ops without advancing.
    let steps = vec![
        AIAction::new_await(AIAction::Shoot, DurationSelector::FixedMs(5)),
        AIAction::Nothing,
    ];
    let mut ai = ShipAI::new(steps);
    let board = Board::new();
    let settings = Settings::new();

    // First visit starts the stopwatch.
    let a = ai.get_action(Cords(2, 2), &board, &settings, 0);
    assert!(matches!(a, ShipAction::Nothing));
    assert_eq!(ai.action_index, 0);

    // Four more ticks, one millisecond apart: still gated.
    for now in 1..5 {
        let a = ai.get_action(Cords(2, 2), &board, &settings, now);
        assert!(matches!(a, ShipAction::Nothing));
        assert_eq!(ai.action_index, 0);
    }

    // At the fifth millisecond the duration has elapsed: the shot fires
    // and the step resolves.
    let a = ai.get_action(Cords(2, 2), &board, &settings, 5);
    assert!(matches!(a, ShipAction::Shoot));
    assert_eq!(ai.action_index, 1);
}

#[test]
fn timed_step_follows_live_configuration() {
    // The duration is read from the configuration at every tick, so the
    // step's speed follows the live fly-speed setting.
    let steps = vec![
        AIAction::new_await(AIAction::Shoot, DurationSelector::FlySpeed),
        AIAction::Nothing,
    ];
    let mut ai = ShipAI::new(steps);
    let board = Board::new();
    let mut settings = Settings::new();
    settings.fly_speed_ms = 1000;

    let a = ai.get_action(Cords(2, 2), &board, &settings, 0);
    assert!(matches!(a, ShipAction::Nothing));
    assert_eq!(ai.action_index, 0);
    let a = ai.get_action(Cords(2, 2), &board, &settings, 500);
    assert!(matches!(a, ShipAction::Nothing));
    assert_eq!(ai.action_index, 0);

    // Lowering the configured speed opens the pending step at once.
    settings.fly_speed_ms = 300;
    let a = ai.get_action(Cords(2, 2), &board, &settings, 500);
    assert!(matches!(a, ShipAction::Shoot));
    assert_eq!(ai.action_index, 1);
}

#[test]
fn program_index_wraps_cyclically() {
    let steps = vec![AIAction::Nothing, AIAction::Remove, AIAction::Shoot];
    let mut ai = ShipAI::new(steps);
    let board = Board::new();
    let settings = Settings::new();

    for round in 0..3 {
        let a = ai.get_action(Cords(1, 1), &board, &settings, round);
        assert!(matches!(a, ShipAction::Nothing));
        assert_eq!(ai.action_index, 1);
        let a = ai.get_action(Cords(1, 1), &board, &settings, round);
        assert!(matches!(a, ShipAction::Remove));
        assert_eq!(ai.action_index, 2);
        let a = ai.get_action(Cords(1, 1), &board, &settings, round);
        assert!(matches!(a, ShipAction::Shoot));
        assert_eq!(ai.action_index, 0);
    }
}

#[test]
fn empty_program_idles() {
    let mut ai = ShipAI::new(Vec::new());
    let board = Board::new();
    let settings = Settings::new();
    let a = ai.get_action(Cords(0, 0), &board, &settings, 0);
    assert!(matches!(a, ShipAction::Nothing));
    assert_eq!(ai.action_index, 0);
}

#[test]
fn random_shoot_decision_respects_threshold() {
    // Randomness level ten maps to a five percent threshold.
    assert!(random_shoot_decision(5, 10, false, true));
    assert!(!random_shoot_decision(6, 10, false, true));
    // Level one maps to ninety percent.
    assert!(random_shoot_decision(90, 1, false, true));
    assert!(!random_shoot_decision(91, 1, false, true));
    // Level zero disables shooting altogether.
    assert!(!random_shoot_decision(1, 0, false, true));
    // A teammate below or a blocked forward cell always suppresses.
    assert!(!random_shoot_decision(1, 10, true, true));
    assert!(!random_shoot_decision(1, 10, false, false));
}

#[test]
fn random_shoot_never_fires_through_teammate() {
    // A fresh enemy's first step is the random shot. With a teammate in
    // the column below, the effect must be a no-op whatever the roll.
    for _ in 0..50 {
        let mut shooter = new_fly_ship();
        let mut board = Board::new();
        board.set(Cords(6, 5), Some(ShipKind::Fly));
        let settings = Settings::new();
        let a = shooter.get_action(Cords(2, 5), &board, &settings, 0);
        assert!(matches!(a, ShipAction::Nothing));
    }
}

#[test]
fn random_shoot_never_fires_into_occupied_cell() {
    for _ in 0..50 {
        let mut shooter = new_fly_ship();
        let mut board = Board::new();
        board.set(Cords(3, 5), Some(ShipKind::Bullet(true)));
        let settings = Settings::new();
        let a = shooter.get_action(Cords(2, 5), &board, &settings, 0);
        assert!(matches!(a, ShipAction::Nothing));
    }
}

#[test]
fn bullet_stuck_at_boundary_is_removed() {
    // An upward bullet at the top row: its wrapped move would keep it at
    // the same row via the wrap, but the wrap flag makes it a Move with
    // a different row here, so build the stuck case directly: a bullet
    // whose move targets its own row at the top row converts to Remove.
    let mut stuck = new_bullet_ship(false);
    // Replace the program with an absolute move to its own row.
    stuck.ai = ShipAI::new(vec![AIAction::Move(Cords(0, 4))]);
    let board = Board::new();
    let settings = Settings::new();
    let a = stuck.get_action(Cords(0, 4), &board, &settings, 0);
    assert!(matches!(a, ShipAction::Remove));
}

#[test]
fn display_types_are_stable() {
    assert_eq!(new_fly_ship().display_type(), "fly");
    assert_eq!(new_b2_fly_ship().display_type(), "b2_fly");
    assert_eq!(new_bullet_ship(true).display_type(), "bullet");
    assert_eq!(new_explosion_ship().display_type(), "explosion");
}

#[test]
fn ship_identities_are_assigned() {
    let a = new_fly_ship();
    let b = new_fly_ship();
    // Identities are opaque; they exist for diagnostics and can be read.
    let _ = a.get_id();
    let _ = b.get_id();
}

#[test]
fn settings_defaults() {
    let s = Settings::new();
    assert!(!s.invincible);
    assert!(s.fly_move);
    assert!(s.laser_shoot);
    assert_eq!(s.number_of_flies, 17);
    assert_eq!(s.fly_speed_ms, 900);
    assert_eq!(s.laser_speed_ms, 300);
    assert_eq!(s.shooting_randomness, 10);
}

#[test]
fn settings_clamp_at_boundaries() {
    let mut s = Settings::new();
    s.laser_speed_ms = 495;
    s.handle_action(ButtonAction::LaserSpeedIncrease);
    assert_eq!(s.laser_speed_ms, 500);
    s.handle_action(ButtonAction::LaserSpeedIncrease);
    assert_eq!(s.laser_speed_ms, 500);

    s.laser_speed_ms = 10;
    s.handle_action(ButtonAction::LaserSpeedDecrease);
    assert_eq!(s.laser_speed_ms, 1);
    s.handle_action(ButtonAction::LaserSpeedDecrease);
    assert_eq!(s.laser_speed_ms, 1);

    s.fly_speed_ms = 5;
    s.handle_action(ButtonAction::FlySpeedDecrease);
    assert_eq!(s.fly_speed_ms, 1);
    s.handle_action(ButtonAction::FlySpeedIncrease);
    assert_eq!(s.fly_speed_ms, 11);

    s.number_of_flies = 0;
    s.handle_action(ButtonAction::FliesDecrease);
    assert_eq!(s.number_of_flies, 0);
    s.handle_action(ButtonAction::FliesIncrease);
    assert_eq!(s.number_of_flies, 1);
}

#[test]
fn settings_toggles_and_reset() {
    let mut s = Settings::new();
    let r = s.handle_action(ButtonAction::ToggleInvincible);
    assert!(matches!(r, Some(ButtonAction::ToggleInvincible)));
    assert!(s.invincible);
    s.handle_action(ButtonAction::ToggleFlyMovement);
    assert!(!s.fly_move);
    s.handle_action(ButtonAction::ToggleLaserShooting);
    assert!(!s.laser_shoot);
    let before_flies = s.number_of_flies;
    let r = s.handle_action(ButtonAction::Reset);
    assert!(matches!(r, Some(ButtonAction::Reset)));
    assert_eq!(s.number_of_flies, before_flies);
}
