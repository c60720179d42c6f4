//! Core logic of a turn-based monster battle game: combatant stats, a type
//! effectiveness table, a deterministic turn resolver, the player's
//! progression ledger (roster, items, buffs, counters), and the battle state
//! machine that ties them together.
//!
//! Presentation (windowing, sprites, UI) lives outside this crate and only
//! hands in player actions and renders the outcomes this crate reports.

pub mod battle;
pub mod progress;
pub mod rng;
pub mod stats;
pub mod turn;
pub mod types;
