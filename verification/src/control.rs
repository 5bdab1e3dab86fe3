//! Decoded sensor commands and their application to the player: the
//! transport that produces them (pressure readings, HTTP) lives outside
//! the core and hands in plain pad events.

use vstd::prelude::*;
use crate::grid::{grid_same, grid_wf, ShipGrid};
use crate::player::{moved_left, moved_right, player_wf, shoot_rel, Player};

verus! {

/// A decoded pad event.
#[derive(Clone, Copy, PartialEq, Eq, Structural, Debug)]
pub enum PadType {
    Right,
    Left,
    Shoot,
}

/// Applies decoded pad events to the player. The pressure threshold
/// below which a raw reading is ignored is judged by the caller that
/// owns the raw readings.
#[derive(Clone, Copy, PartialEq, Eq, Structural, Debug)]
pub struct MessageProcessor {
    pub pressure_threshold: u32,
}

impl MessageProcessor {
    /// A processor with the given pressure threshold.
    pub fn new(pressure_threshold: u32) -> (m: MessageProcessor)
        ensures
            m.pressure_threshold == pressure_threshold,
    {
        MessageProcessor { pressure_threshold }
    }

    /// Apply one decoded pad event: a step left or right, or a shot.
    pub fn handle_active_pad(
        &self,
        pad_type: &PadType,
        player: &mut Player,
        grid: &mut ShipGrid,
        now_ms: u64,
    )
        requires
            player_wf(*old(player)),
            grid_wf(*old(grid)),
        ensures
            player_wf(*final(player)),
            grid_wf(*final(grid)),
            match *pad_type {
                PadType::Left => *final(player) == moved_left(*old(player)) && grid_same(
                    *old(grid),
                    *final(grid),
                ),
                PadType::Right => *final(player) == moved_right(*old(player)) && grid_same(
                    *old(grid),
                    *final(grid),
                ),
                PadType::Shoot => exists|fired: bool|
                    #[trigger] shoot_rel(
                        *old(player),
                        *final(player),
                        *old(grid),
                        *final(grid),
                        now_ms,
                        fired,
                    ),
            },
    {
        match pad_type {
            PadType::Left => player.move_left(),
            PadType::Right => player.move_right(),
            PadType::Shoot => {
                let fired = player.shoot(grid, now_ms);
                proof {
                    assert(shoot_rel(*old(player), *player, *old(grid), *grid, now_ms, fired));
                }
            },
        }
    }
}

} // verus!
