//! Capabilities of the hardware that the controller works with.

pub mod light_actuator;
pub mod light_sensor;
pub mod motion;
pub mod stub_devices;
