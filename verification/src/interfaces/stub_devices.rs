//! Devices without hardware: each holds its reading or its light as a flag.

use vstd::prelude::*;
use crate::interfaces::light_actuator::LightActuator;
use crate::interfaces::light_sensor::AmbientLightSensor;
use crate::interfaces::motion::MotionSensor;

verus! {

/// A motion sensor whose reading is set by hand.
pub struct StubMotionSensor {
    motion: bool,
}

impl View for StubMotionSensor {
    type V = bool;

    /// The reading.
    closed spec fn view(&self) -> bool {
        self.motion
    }
}

impl StubMotionSensor {
    /// A sensor that sees no motion.
    pub fn new() -> (sensor: Self)
        ensures
            !sensor@,
    {
        Self { motion: false }
    }

    /// Sets the reading.
    pub fn set_motion(&mut self, motion: bool)
        ensures
            final(self)@ == motion,
    {
        self.motion = motion;
    }
}

impl MotionSensor for StubMotionSensor {
    fn motion_detected(&self) -> (motion: bool)
        ensures
            motion == self@,
    {
        self.motion
    }
}

/// An ambient-light sensor with a fixed reading.
pub struct StubAmbientLightSensor {
    low: bool,
}

impl View for StubAmbientLightSensor {
    type V = bool;

    /// The reading.
    closed spec fn view(&self) -> bool {
        self.low
    }
}

impl StubAmbientLightSensor {
    /// A sensor that always reads `low`.
    pub fn new(low: bool) -> (sensor: Self)
        ensures
            sensor@ == low,
    {
        Self { low }
    }
}

impl AmbientLightSensor for StubAmbientLightSensor {
    fn is_low(&self) -> (low: bool)
        ensures
            low == self@,
    {
        self.low
    }
}

/// A light that is a flag.
pub struct StubLightActuator {
    on: bool,
}

impl View for StubLightActuator {
    type V = bool;

    /// Whether the light is on.
    closed spec fn view(&self) -> bool {
        self.on
    }
}

impl StubLightActuator {
    /// A light that is off.
    pub fn new() -> (light: Self)
        ensures
            !light@,
    {
        Self { on: false }
    }

    /// Whether the light is on.
    pub fn is_on(&self) -> (on: bool)
        ensures
            on == self@,
    {
        self.on
    }
}

impl LightActuator for StubLightActuator {
    /// The flag.
    open spec fn lit(&self) -> bool {
        self@
    }

    fn turn_on(&mut self) {
        self.on = true;
    }

    fn turn_off(&mut self) {
        self.on = false;
    }
}

} // verus!
