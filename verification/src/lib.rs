//! Turn-resolution engine for a single-player outpost-management simulation.
//!
//! The crate models the outpost economy: a resource ledger with asymmetric
//! flow/stockpile accounting, crew members with needs and mood, modules with
//! clamped energy levels and per-kind production formulas, the cascading
//! power-cutback algorithm, and the sector/mission expedition state machine
//! driven by a seeded deterministic generator.

pub mod crew;
pub mod cutback;
pub mod game;
pub mod game_state;
pub mod ids;
pub mod indexing;
pub mod laws;
pub mod modules;
pub mod outpost;
pub mod region;
pub mod store;
pub mod resources;
pub mod rng;
pub mod sector;
pub mod snapshot;
pub mod stats;
