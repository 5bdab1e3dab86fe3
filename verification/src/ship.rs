//! Entities: each ship couples a closed-variant kind with one behavior
//! program and a process-unique identity used for diagnostics, never for
//! gameplay rules.

use vstd::prelude::*;
use uuid::Uuid;
use crate::behavior::{ai_step_rel, ai_wf, AIAction, DurationSelector, ShipAI};
use crate::board::{is_bullet, ShipKind};
use crate::board::{board_wf, Board};
use crate::external::fresh_id;
use crate::geometry::{in_bounds, Cords, RelCords, ShipAction, ROWS};
use crate::settings::Settings;

verus! {

/// An entity of the grid.
#[derive(Debug)]
pub struct Ship {
    pub kind: ShipKind,
    pub ai: ShipAI,
    pub id: Uuid,
}

/// A ship is well formed when its program is.
pub open spec fn ship_wf(s: Ship) -> bool {
    ai_wf(s.ai)
}

/// The stable tag a kind is rendered and scored under.
pub open spec fn kind_name(k: ShipKind) -> Seq<char> {
    match k {
        ShipKind::Fly => "fly"@,
        ShipKind::TikiFly => "tiki_fly"@,
        ShipKind::NorthropFly => "northrop_fly"@,
        ShipKind::B2Fly => "b2_fly"@,
        ShipKind::Bullet(_) => "bullet"@,
        ShipKind::Explosion => "explosion"@,
    }
}

/// A step that idles behind the configured fly speed.
pub open spec fn is_timed_idle_step(a: AIAction) -> bool {
    match a {
        AIAction::AwaitAction(inner, start, sel) => *inner == AIAction::Nothing && start is None
            && sel == DurationSelector::FlySpeed,
        _ => false,
    }
}

/// The shared enemy program: a chance to shoot, four idle beats at the
/// configured fly speed, and another chance to shoot.
pub open spec fn enemy_steps(actions: Seq<AIAction>) -> bool {
    &&& actions.len() == 6
    &&& actions[0] == AIAction::RandomShoot
    &&& actions[5] == AIAction::RandomShoot
    &&& forall|i: int| 1 <= i <= 4 ==> is_timed_idle_step(#[trigger] actions[i])
}

/// The projectile program: one relative step per laser-speed beat,
/// downward or upward.
pub open spec fn bullet_steps(actions: Seq<AIAction>, moving_down: bool) -> bool {
    &&& actions.len() == 1
    &&& match actions[0] {
        AIAction::AwaitAction(inner, start, sel) => {
            &&& *inner == AIAction::RelativeMove(
                RelCords(
                    if moving_down {
                        1i32
                    } else {
                        -1i32
                    },
                    0,
                ),
            )
            &&& start is None
            &&& sel == DurationSelector::LaserSpeed
        },
        _ => false,
    }
}

/// The explosion program: self-expire after a fixed second.
pub open spec fn explosion_steps(actions: Seq<AIAction>) -> bool {
    &&& actions.len() == 1
    &&& match actions[0] {
        AIAction::AwaitAction(inner, start, sel) => {
            &&& *inner == AIAction::Remove
            &&& start is None
            &&& sel == DurationSelector::FixedMs(1000)
        },
        _ => false,
    }
}

/// A freshly spawned enemy of the given tier: program at its first step,
/// stopwatches unstarted.
pub open spec fn is_new_enemy_ship(s: Ship, kind: ShipKind) -> bool {
    &&& s.kind == kind
    &&& is_enemy_kind_spec(kind)
    &&& s.ai.action_index == 0
    &&& enemy_steps(s.ai.actions@)
}

/// Whether the kind is one of the enemy tiers (alias kept local to spawn
/// predicates).
pub open spec fn is_enemy_kind_spec(k: ShipKind) -> bool {
    crate::board::is_enemy(k)
}

/// A freshly spawned projectile.
pub open spec fn is_new_bullet_ship(s: Ship, moving_down: bool) -> bool {
    &&& s.kind == ShipKind::Bullet(moving_down)
    &&& s.ai.action_index == 0
    &&& bullet_steps(s.ai.actions@, moving_down)
}

/// A freshly spawned, self-expiring explosion.
pub open spec fn is_new_explosion_ship(s: Ship) -> bool {
    &&& s.kind == ShipKind::Explosion
    &&& s.ai.action_index == 0
    &&& explosion_steps(s.ai.actions@)
}

fn enemy_program() -> (ai: ShipAI)
    ensures
        ai.action_index == 0,
        enemy_steps(ai.actions@),
        ai_wf(ai),
{
    let mut actions: Vec<AIAction> = Vec::new();
    actions.push(AIAction::RandomShoot);
    actions.push(AIAction::new_await(AIAction::Nothing, DurationSelector::FlySpeed));
    actions.push(AIAction::new_await(AIAction::Nothing, DurationSelector::FlySpeed));
    actions.push(AIAction::new_await(AIAction::Nothing, DurationSelector::FlySpeed));
    actions.push(AIAction::new_await(AIAction::Nothing, DurationSelector::FlySpeed));
    actions.push(AIAction::RandomShoot);
    ShipAI::new(actions)
}

fn new_enemy_ship(kind: ShipKind) -> (s: Ship)
    requires
        is_enemy_kind_spec(kind),
    ensures
        is_new_enemy_ship(s, kind),
        ship_wf(s),
{
    Ship { kind, ai: enemy_program(), id: fresh_id() }
}

/// A fresh enemy of the weakest tier.
pub fn new_fly_ship() -> (s: Ship)
    ensures
        is_new_enemy_ship(s, ShipKind::Fly),
        ship_wf(s),
{
    new_enemy_ship(ShipKind::Fly)
}

/// A fresh enemy of the second tier.
pub fn new_tiki_fly_ship() -> (s: Ship)
    ensures
        is_new_enemy_ship(s, ShipKind::TikiFly),
        ship_wf(s),
{
    new_enemy_ship(ShipKind::TikiFly)
}

/// A fresh enemy of the third tier.
pub fn new_northrop_fly_ship() -> (s: Ship)
    ensures
        is_new_enemy_ship(s, ShipKind::NorthropFly),
        ship_wf(s),
{
    new_enemy_ship(ShipKind::NorthropFly)
}

/// A fresh enemy of the strongest tier.
pub fn new_b2_fly_ship() -> (s: Ship)
    ensures
        is_new_enemy_ship(s, ShipKind::B2Fly),
        ship_wf(s),
{
    new_enemy_ship(ShipKind::B2Fly)
}

/// A fresh projectile, travelling downward when `moving_down`.
pub fn new_bullet_ship(moving_down: bool) -> (s: Ship)
    ensures
        is_new_bullet_ship(s, moving_down),
        ship_wf(s),
{
    let movement = if moving_down {
        RelCords(1, 0)
    } else {
        RelCords(-1, 0)
    };
    let mut actions: Vec<AIAction> = Vec::new();
    actions.push(
        AIAction::new_await(AIAction::RelativeMove(movement), DurationSelector::LaserSpeed),
    );
    Ship { kind: ShipKind::Bullet(moving_down), ai: ShipAI::new(actions), id: fresh_id() }
}

/// A fresh explosion that removes itself after a fixed second.
pub fn new_explosion_ship() -> (s: Ship)
    ensures
        is_new_explosion_ship(s),
        ship_wf(s),
{
    let mut actions: Vec<AIAction> = Vec::new();
    actions.push(AIAction::new_await(AIAction::Remove, DurationSelector::FixedMs(1000)));
    Ship { kind: ShipKind::Explosion, ai: ShipAI::new(actions), id: fresh_id() }
}

/// A projectile's computed move that would keep it at the row it already
/// occupies at either grid extreme cannot advance past the boundary; it
/// is converted to a removal instead of orbiting.
pub open spec fn bullet_boundary_stuck(kind: ShipKind, action: ShipAction, cords: Cords) -> bool {
    is_bullet(kind) && match action {
        ShipAction::Move(target, _) => target.0 == cords.0 && (cords.0 == 0 || cords.0 == ROWS
            - 1),
        _ => false,
    }
}

impl Ship {
    /// The stable tag the entity is rendered and scored under.
    pub fn display_type(&self) -> (r: &'static str)
        ensures
            r@ == kind_name(self.kind),
    {
        match self.kind {
            ShipKind::Fly => "fly",
            ShipKind::TikiFly => "tiki_fly",
            ShipKind::NorthropFly => "northrop_fly",
            ShipKind::B2Fly => "b2_fly",
            ShipKind::Bullet(_) => "bullet",
            ShipKind::Explosion => "explosion",
        }
    }

    /// The entity's process-unique identity.
    pub fn get_id(&self) -> (r: Uuid)
        ensures
            r == self.id,
    {
        self.id
    }

    /// Advance the entity's program by one tick: the program's own
    /// outcome, except that a projectile stuck at a grid extreme asks to
    /// be removed.
    pub fn get_action(
        &mut self,
        cords: Cords,
        board: &Board,
        settings: &Settings,
        now_ms: u64,
    ) -> (action: ShipAction)
        requires
            board_wf(*board),
            in_bounds(cords),
            ship_wf(*old(self)),
        ensures
            ship_wf(*final(self)),
            final(self).kind == old(self).kind,
            final(self).id == old(self).id,
            final(self).ai.actions.len() == old(self).ai.actions.len(),
            exists|raw: ShipAction|
                {
                    &&& #[trigger] ai_step_rel(
                        old(self).ai,
                        final(self).ai,
                        raw,
                        cords,
                        *board,
                        *settings,
                        now_ms,
                    )
                    &&& action == (if bullet_boundary_stuck(old(self).kind, raw, cords) {
                        ShipAction::Remove
                    } else {
                        raw
                    })
                },
    {
        let raw = self.ai.get_action(cords, board, settings, now_ms);
        proof {
            assert(ai_step_rel(old(self).ai, self.ai, raw, cords, *board, *settings, now_ms));
        }

        if self.kind.is_bullet_kind() {
            match raw {
                ShipAction::Move(target, _) => {
                    if target.0 == cords.0 && (cords.0 == 0 || cords.0 == ROWS - 1) {
                        proof {
                            assert(bullet_boundary_stuck(old(self).kind, raw, cords));
                        }
                        return ShipAction::Remove;
                    }
                },
                _ => {},
            }
        }

        proof {
            assert(!bullet_boundary_stuck(old(self).kind, raw, cords));
        }
        raw
    }
}

} // verus!
