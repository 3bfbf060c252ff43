//! A timer for the turns of a table of players.

pub mod player;
pub mod state;
pub mod stats;
pub mod tracker;
