//! The live configuration the simulation reads every step, and the
//! adjustments the settings panel can apply to it. Values are clamped
//! defensively at the boundary rather than rejected.

use vstd::prelude::*;

verus! {

/// The configuration read each step and never mutated by the core.
/// Speeds are in milliseconds; `shooting_randomness` ranges over 1..=10,
/// where a higher setting makes enemies less likely to fire.
#[derive(Clone, Debug)]
pub struct Settings {
    pub invincible: bool,
    pub fly_move: bool,
    pub laser_shoot: bool,
    pub number_of_flies: u32,
    pub fly_speed_ms: u64,
    pub laser_speed_ms: u64,
    pub shooting_randomness: u32,
}

/// An adjustment requested from the settings panel.
#[derive(Clone, Copy, PartialEq, Eq, Structural, Debug)]
pub enum ButtonAction {
    FlySpeedDecrease,
    FlySpeedIncrease,
    LaserSpeedIncrease,
    LaserSpeedDecrease,
    FliesDecrease,
    FliesIncrease,
    ToggleInvincible,
    ToggleFlyMovement,
    ToggleLaserShooting,
    Reset,
}

/// A speed lowered by 10 ms, clamped to at least 1 ms.
pub open spec fn speed_decreased(ms: u64) -> u64 {
    if ms <= 10 {
        1u64
    } else {
        (ms - 10) as u64
    }
}

/// The laser speed raised by 10 ms, capped at 500 ms.
pub open spec fn laser_speed_increased(ms: u64) -> u64 {
    if ms + 10 > 500 {
        500u64
    } else {
        (ms + 10) as u64
    }
}

impl Settings {
    /// The default configuration.
    pub fn new() -> (s: Settings)
        ensures
            !s.invincible,
            s.fly_move,
            s.laser_shoot,
            s.number_of_flies == 17,
            s.fly_speed_ms == 900,
            s.laser_speed_ms == 300,
            s.shooting_randomness == 10,
    {
        Settings {
            invincible: false,
            fly_move: true,
            laser_shoot: true,
            number_of_flies: 17,
            fly_speed_ms: 900,
            laser_speed_ms: 300,
            shooting_randomness: 10,
        }
    }

    /// Apply one panel adjustment. A reset request changes nothing here:
    /// it is handed back for the caller to rebuild the game. Every other
    /// adjustment changes exactly its own value, clamped to its valid
    /// range, and is handed back as confirmation.
    pub fn handle_action(&mut self, action: ButtonAction) -> (r: Option<ButtonAction>)
        ensures
            r == Some(action),
            match action {
                ButtonAction::FlySpeedDecrease => *final(self) == (Settings {
                    fly_speed_ms: speed_decreased(old(self).fly_speed_ms),
                    ..*old(self)
                }),
                ButtonAction::FlySpeedIncrease => *final(self) == (Settings {
                    fly_speed_ms: old(self).fly_speed_ms.checked_add(10).unwrap_or(u64::MAX),
                    ..*old(self)
                }),
                ButtonAction::LaserSpeedIncrease => *final(self) == (Settings {
                    laser_speed_ms: laser_speed_increased(old(self).laser_speed_ms),
                    ..*old(self)
                }),
                ButtonAction::LaserSpeedDecrease => *final(self) == (Settings {
                    laser_speed_ms: speed_decreased(old(self).laser_speed_ms),
                    ..*old(self)
                }),
                ButtonAction::FliesDecrease => *final(self) == (Settings {
                    number_of_flies: if old(self).number_of_flies > 0 {
                        (old(self).number_of_flies - 1) as u32
                    } else {
                        0u32
                    },
                    ..*old(self)
                }),
                ButtonAction::FliesIncrease => *final(self) == (Settings {
                    number_of_flies: old(self).number_of_flies.checked_add(1).unwrap_or(u32::MAX),
                    ..*old(self)
                }),
                ButtonAction::ToggleInvincible => *final(self) == (Settings {
                    invincible: !old(self).invincible,
                    ..*old(self)
                }),
                ButtonAction::ToggleFlyMovement => *final(self) == (Settings {
                    fly_move: !old(self).fly_move,
                    ..*old(self)
                }),
                ButtonAction::ToggleLaserShooting => *final(self) == (Settings {
                    laser_shoot: !old(self).laser_shoot,
                    ..*old(self)
                }),
                ButtonAction::Reset => *final(self) == *old(self),
            },
    {
        match action {
            ButtonAction::FlySpeedDecrease => {
                let ms = self.fly_speed_ms.saturating_sub(10);
                self.fly_speed_ms = if ms == 0 {
                    1
                } else {
                    ms
                };
            },
            ButtonAction::FlySpeedIncrease => {
                self.fly_speed_ms = self.fly_speed_ms.saturating_add(10);
            },
            ButtonAction::LaserSpeedIncrease => {
                let ms = self.laser_speed_ms.saturating_add(10);
                self.laser_speed_ms = if ms > 500 {
                    500
                } else {
                    ms
                };
            },
            ButtonAction::LaserSpeedDecrease => {
                let ms = self.laser_speed_ms.saturating_sub(10);
                self.laser_speed_ms = if ms == 0 {
                    1
                } else {
                    ms
                };
            },
            ButtonAction::FliesDecrease => {
                self.number_of_flies = self.number_of_flies.saturating_sub(1);
            },
            ButtonAction::FliesIncrease => {
                self.number_of_flies = self.number_of_flies.saturating_add(1);
            },
            ButtonAction::ToggleInvincible => {
                self.invincible = !self.invincible;
            },
            ButtonAction::ToggleFlyMovement => {
                self.fly_move = !self.fly_move;
            },
            ButtonAction::ToggleLaserShooting => {
                self.laser_shoot = !self.laser_shoot;
            },
            ButtonAction::Reset => {},
        }

        Some(action)
    }
}

} // verus!
