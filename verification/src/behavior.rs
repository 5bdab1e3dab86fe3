//! The per-entity behavior program: an ordered, cyclic sequence of timed
//! steps, of which exactly one is evaluated per tick against a read-only
//! board snapshot. A step either resolves (the program index advances
//! cyclically) or stays gated behind its timer.

use vstd::prelude::*;
use crate::board::{Board, board_wf, enemy_below_spec};
use crate::external::roll_percent;
use crate::geometry::{
    in_bounds, target_wraps, wrapped_target, Cords, RelCords, ShipAction,
};
use crate::settings::Settings;
use crate::timer::elapsed_ms;

verus! {

/// Names the configuration value a timed step's duration is read from,
/// so that behavior speed follows the live configuration instead of a
/// stored duration.
#[derive(Clone, Copy, PartialEq, Eq, Structural, Debug)]
pub enum DurationSelector {
    FlySpeed,
    LaserSpeed,
    FixedMs(u64),
}

/// The duration a selector denotes under a configuration.
pub open spec fn duration_of(sel: DurationSelector, s: Settings) -> u64 {
    match sel {
        DurationSelector::FlySpeed => s.fly_speed_ms,
        DurationSelector::LaserSpeed => s.laser_speed_ms,
        DurationSelector::FixedMs(ms) => ms,
    }
}

impl DurationSelector {
    /// Resolve the selector against the current configuration.
    pub fn duration_ms(&self, settings: &Settings) -> (r: u64)
        ensures
            r == duration_of(*self, *settings),
    {
        match self {
            DurationSelector::FlySpeed => settings.fly_speed_ms,
            DurationSelector::LaserSpeed => settings.laser_speed_ms,
            DurationSelector::FixedMs(ms) => *ms,
        }
    }
}

/// The outcome of evaluating one behavior step: the effect to apply, and
/// whether the step resolved (so the program moves on to the next step).
#[derive(Clone, Copy, PartialEq, Eq, Structural, Debug)]
pub struct AIActionResult {
    pub move_on_to_next_action: bool,
    pub ship_action: ShipAction,
}

/// A board predicate a behavior step can test.
#[derive(Clone, Copy, PartialEq, Eq, Structural, Debug)]
pub enum Condition {
    /// Some entity occupies the given cell.
    ShipExists(Cords),
    /// The cell reached by the offset is unoccupied.
    PositionAvailable(RelCords),
    /// The cell a shot would appear in, reached by the offset, is
    /// unoccupied.
    ShootPositionAvailable(RelCords),
}

/// What a condition states of the board, seen from `cords`.
pub open spec fn condition_holds(c: Condition, cords: Cords, b: Board) -> bool {
    match c {
        Condition::ShipExists(target) => b.spec_at(target) is Some,
        Condition::PositionAvailable(rc) => b.spec_at(wrapped_target(rc, cords)) is None,
        Condition::ShootPositionAvailable(rc) => b.spec_at(wrapped_target(rc, cords)) is None,
    }
}

impl Condition {
    /// Test the condition against the board.
    pub fn evaluate(&self, cords: Cords, board: &Board) -> (r: bool)
        requires
            board_wf(*board),
            in_bounds(cords),
        ensures
            r == condition_holds(*self, cords, *board),
    {
        match self {
            Condition::ShipExists(target) => board.occupied(*target),
            Condition::PositionAvailable(rc) => {
                let (target, _) = rc.evaluate(cords);
                !board.occupied(target)
            },
            Condition::ShootPositionAvailable(rc) => {
                let (target, _) = rc.evaluate(cords);
                !board.occupied(target)
            },
        }
    }
}

/// The percentage threshold a roll must stay within for an enemy to
/// fire, per configured shooting-randomness level: levels 1..=10 map to
/// 90 down to 5 percent, so a higher setting fires less often; any other
/// level falls back to 50.
pub open spec fn shoot_threshold(randomness: u32) -> u32 {
    if randomness == 1 {
        90u32
    } else if randomness == 2 {
        80u32
    } else if randomness == 3 {
        70u32
    } else if randomness == 4 {
        60u32
    } else if randomness == 5 {
        50u32
    } else if randomness == 6 {
        40u32
    } else if randomness == 7 {
        30u32
    } else if randomness == 8 {
        20u32
    } else if randomness == 9 {
        10u32
    } else if randomness == 10 {
        5u32
    } else {
        50u32
    }
}

/// Whether a random-shoot step fires, given the roll it drew and what it
/// saw on the board: the setting must allow shooting at all, no teammate
/// may stand in the column below, the forward cell must be clear, and
/// the roll must fall within the threshold.
pub open spec fn random_shoot_fires(
    roll: u32,
    randomness: u32,
    enemy_below: bool,
    forward_clear: bool,
) -> bool {
    randomness > 0 && !enemy_below && forward_clear && roll <= shoot_threshold(randomness)
}

/// The random-shoot decision for a given roll. The roll itself comes
/// from the thread-local generator; everything downstream of it is this
/// function.
pub fn random_shoot_decision(
    roll: u32,
    randomness: u32,
    enemy_below: bool,
    forward_clear: bool,
) -> (fires: bool)
    ensures
        fires == random_shoot_fires(roll, randomness, enemy_below, forward_clear),
{
    let threshold: u32 = match randomness {
        1 => 90,
        2 => 80,
        3 => 70,
        4 => 60,
        5 => 50,
        6 => 40,
        7 => 30,
        8 => 20,
        9 => 10,
        10 => 5,
        _ => 50,
    };
    randomness > 0 && !enemy_below && forward_clear && roll <= threshold
}

/// One step of a behavior program.
#[derive(Debug)]
pub enum AIAction {
    /// No effect; resolves immediately.
    Nothing,
    /// Ask to be removed from the grid; resolves.
    Remove,
    /// Fire a downward shot; resolves.
    Shoot,
    /// Maybe fire: never through a teammate below, never into an
    /// occupied forward cell, and only when a percentage roll falls
    /// within the configured threshold; always resolves.
    RandomShoot,
    /// Move to an absolute cell; resolves.
    Move(Cords),
    /// Move by the offset only when movement is enabled and the target
    /// cell is unoccupied; always resolves, whether or not it moved.
    MoveCautious(RelCords),
    /// Fire only when no enemy stands in the column below; resolves.
    ShootOrNothing,
    /// Move by the offset unconditionally (projectile travel); resolves.
    RelativeMove(RelCords),
    /// Gate an inner step behind a duration read from the configuration.
    /// The stopwatch starts on the first visit; until the duration has
    /// elapsed the step yields no effect and does not resolve. Once
    /// elapsed, the inner step is evaluated and this step resolves
    /// exactly when the inner one does, resetting the stopwatch then.
    AwaitAction(Box<AIAction>, Option<u64>, DurationSelector),
}

/// What the outcome of the only random draw of a step evaluation is
/// allowed to look like: a shot can only come out of a clear lane, and a
/// blocked or disabled lane forces a no-op.
pub open spec fn random_shoot_outcome(a: ShipAction, cords: Cords, b: Board, s: Settings) -> bool {
    &&& (a == ShipAction::Shoot || a == ShipAction::Nothing)
    &&& (a == ShipAction::Shoot ==> s.shooting_randomness > 0 && !enemy_below_spec(b, cords)
        && b.spec_at(wrapped_target(RelCords(1, 0), cords)) is None)
}

/// How one evaluation of a behavior step relates the step before the
/// tick (`pre`), the step after it (`post`), and the produced outcome
/// `r`, for an entity at `cords` seeing board `b` under configuration
/// `s` at time `now`. Every case except the timed gate leaves the step
/// itself unchanged and resolves.
pub open spec fn eval_rel(
    pre: AIAction,
    post: AIAction,
    r: AIActionResult,
    cords: Cords,
    b: Board,
    s: Settings,
    now: u64,
) -> bool
    decreases pre,
{
    match pre {
        AIAction::Nothing => post == pre && r.move_on_to_next_action && r.ship_action
            == ShipAction::Nothing,
        AIAction::Remove => post == pre && r.move_on_to_next_action && r.ship_action
            == ShipAction::Remove,
        AIAction::Shoot => post == pre && r.move_on_to_next_action && r.ship_action
            == ShipAction::Shoot,
        AIAction::RandomShoot => post == pre && r.move_on_to_next_action && random_shoot_outcome(
            r.ship_action,
            cords,
            b,
            s,
        ),
        AIAction::Move(target) => post == pre && r.move_on_to_next_action && r.ship_action
            == ShipAction::Move(target, false),
        AIAction::MoveCautious(rc) => post == pre && r.move_on_to_next_action && r.ship_action == (
        if s.fly_move && b.spec_at(wrapped_target(rc, cords)) is None {
            ShipAction::Move(wrapped_target(rc, cords), target_wraps(rc, cords))
        } else {
            ShipAction::Nothing
        }),
        AIAction::ShootOrNothing => post == pre && r.move_on_to_next_action && r.ship_action == (
        if enemy_below_spec(b, cords) {
            ShipAction::Nothing
        } else {
            ShipAction::Shoot
        }),
        AIAction::RelativeMove(rc) => post == pre && r.move_on_to_next_action && r.ship_action
            == ShipAction::Move(wrapped_target(rc, cords), target_wraps(rc, cords)),
        AIAction::AwaitAction(inner, start, sel) => {
            let started: u64 = if start is Some {
                start->0
            } else {
                now
            };
            if elapsed_ms(started, now) >= duration_of(sel, s) {
                match post {
                    AIAction::AwaitAction(inner_post, start_post, sel_post) => {
                        &&& sel_post == sel
                        &&& eval_rel(*inner, *inner_post, r, cords, b, s, now)
                        &&& start_post == (if r.move_on_to_next_action {
                            None
                        } else {
                            Some(started)
                        })
                    },
                    _ => false,
                }
            } else {
                &&& !r.move_on_to_next_action
                &&& r.ship_action == ShipAction::Nothing
                &&& post == AIAction::AwaitAction(inner, Some(started), sel)
            }
        },
    }
}

impl AIAction {
    /// Gate a step behind a duration selector; the stopwatch is not yet
    /// started.
    pub fn new_await(action: AIAction, selector: DurationSelector) -> (r: AIAction)
        ensures
            (match r {
                AIAction::AwaitAction(inner, start, sel) => *inner == action && start is None
                    && sel == selector,
                _ => false,
            }),
    {
        AIAction::AwaitAction(Box::new(action), None, selector)
    }

    /// Evaluate the step for one tick. The returned outcome and the
    /// step's new state are exactly those of `eval_rel`.
    pub fn evaluate(
        &mut self,
        cords: Cords,
        board: &Board,
        settings: &Settings,
        now_ms: u64,
    ) -> (r: AIActionResult)
        requires
            board_wf(*board),
            in_bounds(cords),
        ensures
            eval_rel(*old(self), *final(self), r, cords, *board, *settings, now_ms),
        decreases *old(self),
    {
        match self {
            AIAction::Nothing => AIActionResult {
                move_on_to_next_action: true,
                ship_action: ShipAction::Nothing,
            },
            AIAction::Remove => AIActionResult {
                move_on_to_next_action: true,
                ship_action: ShipAction::Remove,
            },
            AIAction::Shoot => AIActionResult {
                move_on_to_next_action: true,
                ship_action: ShipAction::Shoot,
            },
            AIAction::RandomShoot => {
                let randomness = settings.shooting_randomness;
                if randomness > 0 {
                    let enemy_below = board.enemy_below(cords);
                    let forward_clear = Condition::ShootPositionAvailable(
                        RelCords(1, 0),
                    ).evaluate(cords, board);
                    let roll = roll_percent();
                    let fires = random_shoot_decision(roll, randomness, enemy_below, forward_clear);
                    AIActionResult {
                        move_on_to_next_action: true,
                        ship_action: if fires {
                            ShipAction::Shoot
                        } else {
                            ShipAction::Nothing
                        },
                    }
                } else {
                    AIActionResult {
                        move_on_to_next_action: true,
                        ship_action: ShipAction::Nothing,
                    }
                }
            },
            AIAction::Move(target) => AIActionResult {
                move_on_to_next_action: true,
                ship_action: ShipAction::Move(*target, false),
            },
            AIAction::MoveCautious(rc) => {
                if settings.fly_move {
                    let (target, wrap) = rc.evaluate(cords);
                    if !board.occupied(target) {
                        AIActionResult {
                            move_on_to_next_action: true,
                            ship_action: ShipAction::Move(target, wrap),
                        }
                    } else {
                        AIActionResult {
                            move_on_to_next_action: true,
                            ship_action: ShipAction::Nothing,
                        }
                    }
                } else {
                    AIActionResult {
                        move_on_to_next_action: true,
                        ship_action: ShipAction::Nothing,
                    }
                }
            },
            AIAction::ShootOrNothing => {
                if board.enemy_below(cords) {
                    AIActionResult {
                        move_on_to_next_action: true,
                        ship_action: ShipAction::Nothing,
                    }
                } else {
                    AIActionResult {
                        move_on_to_next_action: true,
                        ship_action: ShipAction::Shoot,
                    }
                }
            },
            AIAction::RelativeMove(rc) => {
                let (target, wrap) = rc.evaluate(cords);
                AIActionResult {
                    move_on_to_next_action: true,
                    ship_action: ShipAction::Move(target, wrap),
                }
            },
            AIAction::AwaitAction(inner, start_time, sel) => {
                let started: u64 = match start_time {
                    Some(t) => *t,
                    None => now_ms,
                };
                let dur = sel.duration_ms(settings);
                let elapsed: u64 = if now_ms >= started {
                    now_ms - started
                } else {
                    0
                };
                if elapsed >= dur {
                    let result = inner.evaluate(cords, board, settings, now_ms);
                    if result.move_on_to_next_action {
                        *start_time = None;
                    } else {
                        *start_time = Some(started);
                    }
                    result
                } else {
                    *start_time = Some(started);
                    AIActionResult {
                        move_on_to_next_action: false,
                        ship_action: ShipAction::Nothing,
                    }
                }
            },
        }
    }
}

/// A behavior program: an ordered list of steps and the index of the
/// step the next tick evaluates.
#[derive(Debug)]
pub struct ShipAI {
    pub actions: Vec<AIAction>,
    pub action_index: usize,
}

/// The program index is always a valid index into the step list (zero
/// for the empty program).
pub open spec fn ai_wf(ai: ShipAI) -> bool {
    if ai.actions.len() == 0 {
        ai.action_index == 0
    } else {
        ai.action_index < ai.actions.len()
    }
}

/// The cyclic successor of a program index.
pub open spec fn next_index(i: int, len: int) -> int {
    if i + 1 >= len {
        0
    } else {
        i + 1
    }
}

/// How one tick of a program relates the program before (`pre`) and
/// after (`post`) and the effect it yielded: the empty program yields no
/// effect; otherwise exactly the step at the current index is evaluated
/// in place, and the index advances cyclically exactly when that step
/// resolves.
pub open spec fn ai_step_rel(
    pre: ShipAI,
    post: ShipAI,
    action: ShipAction,
    cords: Cords,
    b: Board,
    s: Settings,
    now: u64,
) -> bool {
    if pre.actions.len() == 0 {
        post == pre && action == ShipAction::Nothing
    } else {
        exists|r: AIActionResult, stepped: AIAction|
            {
                &&& #[trigger] eval_rel(
                    pre.actions[pre.action_index as int],
                    stepped,
                    r,
                    cords,
                    b,
                    s,
                    now,
                )
                &&& action == r.ship_action
                &&& post.actions@ == pre.actions@.update(pre.action_index as int, stepped)
                &&& post.action_index as int == (if r.move_on_to_next_action {
                    next_index(pre.action_index as int, pre.actions.len() as int)
                } else {
                    pre.action_index as int
                })
            }
    }
}

impl ShipAI {
    /// A program over the given steps, starting at the first.
    pub fn new(actions: Vec<AIAction>) -> (ai: ShipAI)
        ensures
            ai.actions == actions,
            ai.action_index == 0,
            ai_wf(ai),
    {
        ShipAI { actions, action_index: 0 }
    }

    /// Advance the program by one tick: evaluate the step at the current
    /// index and move on to the next step exactly when it resolved.
    pub fn get_action(
        &mut self,
        cords: Cords,
        board: &Board,
        settings: &Settings,
        now_ms: u64,
    ) -> (action: ShipAction)
        requires
            board_wf(*board),
            in_bounds(cords),
            ai_wf(*old(self)),
        ensures
            ai_wf(*final(self)),
            final(self).actions.len() == old(self).actions.len(),
            ai_step_rel(*old(self), *final(self), action, cords, *board, *settings, now_ms),
    {
        if self.actions.len() == 0 {
            return ShipAction::Nothing;
        }

        let idx = self.action_index;
        let result = self.actions[idx].evaluate(cords, board, settings, now_ms);

        if result.move_on_to_next_action {
            if self.action_index == self.actions.len() - 1 {
                self.action_index = 0;
            } else {
                self.action_index = self.action_index + 1;
            }
        }

        result.ship_action
    }
}

/// An ungated step never leaves a timed gate in the program: once the
/// step at the current index is a timed gate whose stopwatch is running
/// and whose duration has not elapsed, a tick yields no effect and the
/// index does not advance.
pub proof fn lemma_timed_gate_blocks(
    pre: ShipAI,
    post: ShipAI,
    action: ShipAction,
    cords: Cords,
    b: Board,
    s: Settings,
    now: u64,
    inner: Box<AIAction>,
    started: u64,
    sel: DurationSelector,
)
    requires
        ai_step_rel(pre, post, action, cords, b, s, now),
        pre.actions.len() > 0,
        pre.actions[pre.action_index as int] == AIAction::AwaitAction(inner, Some(started), sel),
        elapsed_ms(started, now) < duration_of(sel, s),
    ensures
        post.action_index == pre.action_index,
        action == ShipAction::Nothing,
        post.actions@ == pre.actions@.update(
            pre.action_index as int,
            AIAction::AwaitAction(inner, Some(started), sel),
        ),
{
}

} // verus!
