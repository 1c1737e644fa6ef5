//! Combat simulation core for a two-sided auto-battler: unit creation from a
//! roster snapshot, a per-tick spatial index, target selection and damage,
//! movement, damage commitment and the battle life cycle.

pub mod types;
pub mod items;
pub mod config;
pub mod unit;
pub mod spatial;
pub mod combat;
pub mod movement;
pub mod stats;
pub mod rng;
pub mod battle;
pub mod ship;
pub mod treasure;
pub mod roster;
