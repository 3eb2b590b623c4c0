//! Coordination of one scored match between a fixed number of networked players.

pub mod error;
pub mod match_state;
pub mod outcome;
pub mod reply;
pub mod session;
pub mod theorems;
pub mod wire;
