//! Per-frame orchestration core of a small 2D tile-based game.
//!
//! The library is the scene state machine that sequences setup, input
//! handling, simulation update, and drawing for each game mode. Engine
//! work (asset loading, entity spawning, rendering, input polling) is
//! performed by outside collaborators: each phase returns the actions the
//! collaborators must carry out, as plain data, and the host loop performs
//! them between ticks.

pub mod game;
pub mod laws;
pub mod state;
