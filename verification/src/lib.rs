//! Deterministic simulation core of a top-down action game.
//!
//! Positions are integer world units and time is counted in whole
//! nanoseconds, so every decision the core takes (proximity, path closure,
//! enclosed area, timer expiry) is exact and repeatable.

pub mod app_state;
pub mod attack;
mod chance;
pub mod common;
pub mod constants;
pub mod cycle;
pub mod enemy;
pub mod game;
pub mod geometry;
pub mod machine;
pub mod player;
pub mod screens;
pub mod session;
pub mod snapshot;
pub mod timer;
pub mod utils;
