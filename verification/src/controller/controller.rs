//! The controller: it reads the sensors, hands what they say to the state
//! machine, and switches the light as the machine decides.

use vstd::prelude::*;
use crate::controller::state_machine::{MachineView, PresenceLightingStateMachine, StateChange};
use crate::interfaces::light_actuator::LightActuator;
use crate::interfaces::light_sensor::AmbientLightSensor;
use crate::interfaces::motion::MotionSensor;

verus! {

/// What one poll of the sensors found and did.
#[derive(Debug, Clone, Copy, PartialEq, Eq, Structural)]
pub struct PollReport {
    /// The motion sensor's reading.
    pub motion_detected: bool,
    /// Motion is seen now and was not seen at the poll before.
    pub motion_started: bool,
    /// The light was switched on.
    pub light_turned_on: bool,
}

/// What one tick did.
#[derive(Debug, Clone, Copy, PartialEq, Eq, Structural)]
pub struct TickReport {
    /// The light was switched off.
    pub light_turned_off: bool,
    /// The machine's latest observable change of state, if one was pending.
    pub state_change: Option<StateChange>,
}

/// Owns the state machine and the devices. It holds no timing logic of its
/// own: it turns sensor readings into events for the machine, and the
/// machine's decisions into calls of the actuator.
pub struct Controller<M, L, A> where M: MotionSensor, L: AmbientLightSensor, A: LightActuator {
    fsm: PresenceLightingStateMachine,
    motion_sensor: M,
    light_sensor: L,
    light_actuator: A,
    last_motion_signal: bool,
}

impl<M, L, A> Controller<M, L, A> where M: MotionSensor, L: AmbientLightSensor, A: LightActuator {
    /// The state machine, as its model.
    pub closed spec fn machine(&self) -> MachineView {
        self.fsm@
    }

    /// The motion sensor.
    pub closed spec fn motion_sensor(&self) -> M {
        self.motion_sensor
    }

    /// The ambient-light sensor.
    pub closed spec fn light_sensor(&self) -> L {
        self.light_sensor
    }

    /// The light actuator.
    pub closed spec fn light_actuator(&self) -> A {
        self.light_actuator
    }

    /// The motion sensor's reading at the last poll.
    pub closed spec fn last_motion_signal(&self) -> bool {
        self.last_motion_signal
    }

    /// Whether `after` has the sensors that `self` has.
    pub open spec fn same_sensors(&self, after: &Self) -> bool {
        &&& after.motion_sensor() == self.motion_sensor()
        &&& after.light_sensor() == self.light_sensor()
    }

    /// A controller of the given machine and devices that has seen no motion
    /// yet.
    pub fn new(
        fsm: PresenceLightingStateMachine,
        motion_sensor: M,
        light_sensor: L,
        light_actuator: A,
    ) -> (controller: Self)
        ensures
            controller.machine() == fsm@,
            controller.motion_sensor() == motion_sensor,
            controller.light_sensor() == light_sensor,
            controller.light_actuator() == light_actuator,
            !controller.last_motion_signal(),
    {
        Controller { fsm, motion_sensor, light_sensor, light_actuator, last_motion_signal: false }
    }

    /// Whether `low` can be what the light sensor of `self` reads.
    pub open spec fn ambient_reading(&self, low: bool) -> bool {
        call_ensures(L::is_low, (&self.light_sensor(),), low)
    }

    /// Reads the motion sensor and handles what it reads. The machine gets
    /// every poll at which motion is seen, not only the first of a run, with
    /// the ambient light that the light sensor reads; the light is switched
    /// on exactly when the machine says so.
    pub fn poll(&mut self) -> (report: PollReport)
        ensures
            call_ensures(
                M::motion_detected,
                (&old(self).motion_sensor(),),
                report.motion_detected,
            ),
            final(self).last_motion_signal() == report.motion_detected,
            report.motion_started == (report.motion_detected && !old(self).last_motion_signal()),
            !report.motion_detected ==> !report.light_turned_on && final(self).machine() == old(
                self,
            ).machine(),
            report.motion_detected ==> exists|ambient_light_is_low: bool, now: nat|
                {
                    &&& old(self).ambient_reading(ambient_light_is_low)
                    &&& final(self).machine() == #[trigger] old(self).machine().after_motion(
                        ambient_light_is_low,
                        now,
                    )
                    &&& report.light_turned_on == old(self).machine().motion_turns_on(
                        ambient_light_is_low,
                    )
                },
            report.light_turned_on ==> final(self).light_actuator().lit(),
            !report.light_turned_on ==> final(self).light_actuator() == old(self).light_actuator(),
            old(self).same_sensors(final(self)),
    {
        let motion_detected = self.motion_sensor.motion_detected();
        self.handle_motion_reading(motion_detected)
    }

    /// Handles one reading of the motion sensor: remembers it, says whether
    /// motion has just begun, and where motion is seen, handles the motion
    /// in the ambient light that the light sensor reads.
    pub fn handle_motion_reading(&mut self, motion_detected: bool) -> (report: PollReport)
        ensures
            report.motion_detected == motion_detected,
            final(self).last_motion_signal() == motion_detected,
            report.motion_started == (motion_detected && !old(self).last_motion_signal()),
            !motion_detected ==> !report.light_turned_on && final(self).machine() == old(
                self,
            ).machine(),
            motion_detected ==> exists|ambient_light_is_low: bool, now: nat|
                {
                    &&& old(self).ambient_reading(ambient_light_is_low)
                    &&& final(self).machine() == #[trigger] old(self).machine().after_motion(
                        ambient_light_is_low,
                        now,
                    )
                    &&& report.light_turned_on == old(self).machine().motion_turns_on(
                        ambient_light_is_low,
                    )
                },
            report.light_turned_on ==> final(self).light_actuator().lit(),
            !report.light_turned_on ==> final(self).light_actuator() == old(self).light_actuator(),
            old(self).same_sensors(final(self)),
    {
        let motion_started = motion_detected && !self.last_motion_signal;
        self.last_motion_signal = motion_detected;
        let light_turned_on = if motion_detected {
            self.handle_motion_event()
        } else {
            false
        };
        PollReport { motion_detected, motion_started, light_turned_on }
    }

    /// Reads the ambient light and handles motion in that light.
    fn handle_motion_event(&mut self) -> (light_turned_on: bool)
        ensures
            exists|ambient_light_is_low: bool, now: nat|
                {
                    &&& old(self).ambient_reading(ambient_light_is_low)
                    &&& final(self).machine() == #[trigger] old(self).machine().after_motion(
                        ambient_light_is_low,
                        now,
                    )
                    &&& light_turned_on == old(self).machine().motion_turns_on(
                        ambient_light_is_low,
                    )
                },
            light_turned_on ==> final(self).light_actuator().lit(),
            !light_turned_on ==> final(self).light_actuator() == old(self).light_actuator(),
            final(self).last_motion_signal() == old(self).last_motion_signal(),
            old(self).same_sensors(final(self)),
    {
        let ambient_light_is_low = self.light_sensor.is_low();
        self.handle_motion_in(ambient_light_is_low)
    }

    /// Hands motion in the given ambient light to the machine, and switches
    /// the light on where the machine says so: exactly when the machine was
    /// idle and the ambient light is low.
    pub fn handle_motion_in(&mut self, ambient_light_is_low: bool) -> (light_turned_on: bool)
        ensures
            light_turned_on == old(self).machine().motion_turns_on(ambient_light_is_low),
            exists|now: nat|
                final(self).machine() == #[trigger] old(self).machine().after_motion(
                    ambient_light_is_low,
                    now,
                ),
            light_turned_on ==> final(self).light_actuator().lit(),
            !light_turned_on ==> final(self).light_actuator() == old(self).light_actuator(),
            final(self).last_motion_signal() == old(self).last_motion_signal(),
            old(self).same_sensors(final(self)),
    {
        let should_turn_on = self.fsm.on_motion_detected(ambient_light_is_low);
        if should_turn_on {
            self.light_actuator.turn_on();
        }
        should_turn_on
    }

    /// Lets the machine's time pass, switches the light off exactly when the
    /// machine says so, and takes the machine's pending change of state.
    pub fn tick(&mut self) -> (report: TickReport)
        ensures
            exists|now: nat|
                {
                    &&& final(self).machine() == (#[trigger] old(self).machine().after_tick(
                        now,
                    )).without_pending_change()
                    &&& report.light_turned_off == old(self).machine().timed_out(now)
                    &&& report.state_change == old(self).machine().after_tick(now).pending_change
                },
            report.light_turned_off ==> !final(self).light_actuator().lit(),
            !report.light_turned_off ==> final(self).light_actuator() == old(
                self,
            ).light_actuator(),
            final(self).last_motion_signal() == old(self).last_motion_signal(),
            old(self).same_sensors(final(self)),
    {
        let should_turn_off = self.fsm.tick();
        if should_turn_off {
            self.light_actuator.turn_off();
        }
        let state_change = self.fsm.take_state_change();
        TickReport { light_turned_off: should_turn_off, state_change }
    }

    /// The light actuator.
    pub fn actuator(&self) -> (actuator: &A)
        ensures
            *actuator == self.light_actuator(),
    {
        &self.light_actuator
    }
}

} // verus!
