//! The state machine and the controller that drives it.

pub mod controller;
pub mod laws;
pub mod state_machine;
