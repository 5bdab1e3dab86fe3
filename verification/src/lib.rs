//! Simulation core of a grid-based shooter: a tick-driven engine that
//! advances autonomous enemy entities over a fixed wrap-around grid,
//! resolves their interactions with projectiles and the player, maintains
//! the score, and drives level progression through generated enemy
//! formations.

pub mod behavior;
pub mod board;
pub mod control;
pub mod external;
pub mod game;
pub mod geometry;
pub mod grid;
pub mod player;
pub mod settings;
pub mod ship;
pub mod spawner;
pub mod timer;
