//! Ballscape: the rules of a sci-fi breakout game, verified with Verus.
//!
//! The library holds the discrete part of the game: the kinds of paddles,
//! balls, bricks, power-ups and hazards, the campaign stage layouts, brick
//! and boss health, scoring and lives, the menu state machine, the level
//! editor's palette and grid, sprite-atlas lookup and the synthesizer's
//! integer parameters. Positions, velocities and timers are floating point
//! and live with the program that drives the library.

pub mod entities;
pub mod level;
pub mod game;
pub mod controls;
pub mod audio;
pub mod atlas;
pub mod hud;
pub mod editor;
mod random;
