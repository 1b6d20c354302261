//! Presence-based lighting control: a timed state machine that decides when a
//! light is switched on and off, and a controller that wires it to a motion
//! sensor, an ambient-light sensor and a light actuator.

pub mod controller;
pub mod interfaces;
pub mod time;
