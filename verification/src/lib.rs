//! The simulation core of a first-person shooter: a player fights through
//! five grid levels against three kinds of enemies, with four weapons.
//!
//! The library holds the rules and nothing else. It neither draws nor reads
//! a device: each frame it is handed a snapshot of the input, and what it
//! leaves behind is a `World` for a renderer to read. All quantities are
//! fixed-point numbers (see `fixed`), so that every rule is exact and every
//! function total on well-formed worlds.
//!
//! `game` is the way in: `update_aim` and `update` advance a `World` by one
//! frame. `laws` states what holds of the game as a whole.

pub mod ai;
pub mod blast;
pub mod combat;
pub mod entity;
pub mod fixed;
pub mod game;
pub mod input;
pub mod laws;
pub mod level;
pub mod maps;
pub mod motion;
pub mod particles;
pub mod pickups;
pub mod player;
mod random;
pub mod shooting;
pub mod weapon;
pub mod world;
