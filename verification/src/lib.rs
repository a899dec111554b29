//! Turn-based battle and game-state core of a terminal text adventure.
//!
//! The crate keeps the state of one play session (player, generic enemy, boss,
//! inventory, message log), resolves combat and mercy attempts, drives the
//! phases of the multi-stage bosses and exposes the session as a state machine
//! that a presentation layer feeds with intents. Every quantity that the game
//! treats as a real number is held in fixed point, as a count of thousandths.

pub mod fixed;
pub mod state;
pub mod combat;
pub mod boss;
pub mod log;
pub mod text;
pub mod item;
pub mod enemy;
pub mod player;
pub mod lore;
pub mod chance;
pub mod narration;
pub mod model;
pub mod keys;
pub mod app;
pub mod screen;
