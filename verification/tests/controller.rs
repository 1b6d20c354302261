use embedded_presence_lighting::controller::controller::{Controller, PollReport, TickReport};
use embedded_presence_lighting::controller::state_machine::{
    PresenceLightingStateMachine, State, StateChange,
};
use embedded_presence_lighting::interfaces::light_actuator::LightActuator;
use embedded_presence_lighting::interfaces::light_sensor::AmbientLightSensor;
use embedded_presence_lighting::interfaces::motion::MotionSensor;
use embedded_presence_lighting::interfaces::stub_devices::{
    StubAmbientLightSensor, StubLightActuator, StubMotionSensor,
};

#[test]
fn controller_turns_light_on_when_motion_and_low_light() {
    let mut motion = StubMotionSensor::new();
    motion.set_motion(true);

    let light = StubAmbientLightSensor::new(true);
    let actuator = StubLightActuator::new();

    let fsm = PresenceLightingStateMachine::default();
    let mut controller = Controller::new(fsm, motion, light, actuator);

    controller.poll();

    assert!(controller.actuator().is_on());
}

#[test]
fn controller_turns_light_off_after_timeout() {
    let mut motion = StubMotionSensor::new();
    motion.set_motion(true);

    let light = StubAmbientLightSensor::new(true);
    let actuator = StubLightActuator::new();

    // Zero durations, so that no test has to sleep.
    let fsm = PresenceLightingStateMachine::new(0, 0);
    let mut controller = Controller::new(fsm, motion, light, actuator);

    controller.poll();
    assert!(controller.actuator().is_on());

    // The first tick switches the light off at once.
    controller.tick();
    assert!(!controller.actuator().is_on());

    // The second tick ends the cooldown; the light stays off.
    controller.tick();
    assert!(!controller.actuator().is_on());
}

#[test]
fn controller_keeps_light_off_without_motion() {
    let motion = StubMotionSensor::new();
    let light = StubAmbientLightSensor::new(true);
    let fsm = PresenceLightingStateMachine::new(300, 10);
    let mut controller = Controller::new(fsm, motion, light, StubLightActuator::new());

    let report = controller.poll();
    assert_eq!(
        report,
        PollReport { motion_detected: false, motion_started: false, light_turned_on: false }
    );
    assert!(!controller.actuator().is_on());
}

#[test]
fn controller_keeps_light_off_in_bright_light() {
    let mut motion = StubMotionSensor::new();
    motion.set_motion(true);
    let light = StubAmbientLightSensor::new(false);
    let fsm = PresenceLightingStateMachine::new(300, 10);
    let mut controller = Controller::new(fsm, motion, light, StubLightActuator::new());

    let report = controller.poll();
    assert_eq!(
        report,
        PollReport { motion_detected: true, motion_started: true, light_turned_on: false }
    );
    assert!(!controller.actuator().is_on());
}

#[test]
fn controller_reports_motion_start_once_per_run() {
    let mut motion = StubMotionSensor::new();
    motion.set_motion(true);
    let light = StubAmbientLightSensor::new(true);
    let fsm = PresenceLightingStateMachine::new(300, 10);
    let mut controller = Controller::new(fsm, motion, light, StubLightActuator::new());

    assert_eq!(
        controller.poll(),
        PollReport { motion_detected: true, motion_started: true, light_turned_on: true }
    );
    assert_eq!(
        controller.poll(),
        PollReport { motion_detected: true, motion_started: false, light_turned_on: false }
    );
    assert!(controller.actuator().is_on());
    assert_eq!(controller.tick(), TickReport { light_turned_off: false, state_change: None });
    assert!(controller.actuator().is_on());
}

#[test]
fn controller_tick_reports_state_changes() {
    let mut motion = StubMotionSensor::new();
    motion.set_motion(true);
    let light = StubAmbientLightSensor::new(true);
    let fsm = PresenceLightingStateMachine::new(0, 0);
    let mut controller = Controller::new(fsm, motion, light, StubLightActuator::new());

    assert!(controller.poll().light_turned_on);
    assert_eq!(
        controller.tick(),
        TickReport {
            light_turned_off: true,
            state_change: Some(StateChange { from: State::LightOn, to: State::Cooldown }),
        }
    );
    assert_eq!(
        controller.tick(),
        TickReport {
            light_turned_off: false,
            state_change: Some(StateChange { from: State::Cooldown, to: State::Idle }),
        }
    );
    assert_eq!(controller.tick(), TickReport { light_turned_off: false, state_change: None });
}

#[test]
fn controller_handles_motion_in_given_light() {
    let fsm = PresenceLightingStateMachine::new(300, 10);
    let mut controller = Controller::new(
        fsm,
        StubMotionSensor::new(),
        StubAmbientLightSensor::new(false),
        StubLightActuator::new(),
    );
    assert!(!controller.handle_motion_in(false));
    assert!(!controller.actuator().is_on());
    assert!(controller.handle_motion_in(true));
    assert!(controller.actuator().is_on());
    assert!(!controller.handle_motion_in(true));
    assert!(controller.actuator().is_on());
}

#[test]
fn stub_devices_hold_their_flags() {
    let mut motion = StubMotionSensor::new();
    assert!(!motion.motion_detected());
    motion.set_motion(true);
    assert!(motion.motion_detected());
    motion.set_motion(false);
    assert!(!motion.motion_detected());

    assert!(StubAmbientLightSensor::new(true).is_low());
    assert!(!StubAmbientLightSensor::new(false).is_low());

    let mut light = StubLightActuator::new();
    assert!(!light.is_on());
    light.turn_on();
    assert!(light.is_on());
    light.turn_on();
    assert!(light.is_on());
    light.turn_off();
    assert!(!light.is_on());
}

struct CountingLight {
    on_calls: u32,
    off_calls: u32,
}

impl LightActuator for CountingLight {
    fn turn_on(&mut self) {
        self.on_calls += 1;
    }

    fn turn_off(&mut self) {
        self.off_calls += 1;
    }
}

#[test]
fn controller_calls_actuator_once_per_decision() {
    let mut motion = StubMotionSensor::new();
    motion.set_motion(true);
    let light = StubAmbientLightSensor::new(true);
    let fsm = PresenceLightingStateMachine::new(0, 0);
    let counting = CountingLight { on_calls: 0, off_calls: 0 };
    let mut controller = Controller::new(fsm, motion, light, counting);

    controller.poll();
    controller.poll();
    controller.poll();
    assert_eq!(controller.actuator().on_calls, 1);
    assert_eq!(controller.actuator().off_calls, 0);
    controller.tick();
    controller.tick();
    controller.tick();
    assert_eq!(controller.actuator().on_calls, 1);
    assert_eq!(controller.actuator().off_calls, 1);
}

#[test]
fn controller_handles_given_motion_readings() {
    let fsm = PresenceLightingStateMachine::new(300, 10);
    let mut controller = Controller::new(
        fsm,
        StubMotionSensor::new(),
        StubAmbientLightSensor::new(true),
        StubLightActuator::new(),
    );
    assert_eq!(
        controller.handle_motion_reading(false),
        PollReport { motion_detected: false, motion_started: false, light_turned_on: false }
    );
    assert!(!controller.actuator().is_on());
    assert_eq!(
        controller.handle_motion_reading(true),
        PollReport { motion_detected: true, motion_started: true, light_turned_on: true }
    );
    assert!(controller.actuator().is_on());
    assert_eq!(
        controller.handle_motion_reading(true),
        PollReport { motion_detected: true, motion_started: false, light_turned_on: false }
    );
    assert_eq!(
        controller.handle_motion_reading(false),
        PollReport { motion_detected: false, motion_started: false, light_turned_on: false }
    );
    assert_eq!(
        controller.handle_motion_reading(true),
        PollReport { motion_detected: true, motion_started: true, light_turned_on: false }
    );
    assert!(controller.actuator().is_on());
}

#[test]
fn controller_poll_follows_the_motion_sensor() {
    let fsm = PresenceLightingStateMachine::new(300, 10);
    let mut controller = Controller::new(
        fsm,
        StubMotionSensor::new(),
        StubAmbientLightSensor::new(true),
        StubLightActuator::new(),
    );
    for _ in 0..3 {
        assert_eq!(
            controller.poll(),
            PollReport { motion_detected: false, motion_started: false, light_turned_on: false }
        );
        assert!(!controller.actuator().is_on());
    }
}
