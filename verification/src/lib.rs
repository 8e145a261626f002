//! Siege of Life: a two-faction Game of Life siege game.
//!
//! This crate holds the rules of the game: the grid and its cells, the
//! B3/S23 evolution with factions, bombs and high-value targets, the preset
//! patterns, deployment of player units, level data and progress bookkeeping,
//! and the decisions of the game's state machine.

pub mod grid;
pub mod gol;
pub mod patterns;
pub mod text;
pub mod level;
pub mod player;
pub mod state;
pub mod ui;
pub mod input;
pub mod render;
