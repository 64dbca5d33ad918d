//! Core of a small 2D mining game: a player-controlled cursor moves over a
//! grid of tiles, paying fuel for each move and converting mined tiles into
//! score, until it runs out of fuel or quits.
//!
//! The crate holds the world simulation only: the tile grid, the logical
//! command state fed by key bindings, the player record, the per-tick
//! simulation step, and the seeded world generator. Rendering, window and
//! input-device handling belong to the surrounding program.

pub mod command;
pub mod grid;
pub mod player;
pub mod sim;
pub mod text;
pub mod tile;
pub mod worldgen;
