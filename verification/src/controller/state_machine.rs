//! The timed state machine: it takes motion events and the passing of time,
//! and decides when the light is switched on and off.

use vstd::prelude::*;
use crate::time::{
    duration_as_nanos, elapsed, instant_elapsed, instant_now, seconds, seconds_to_nanos, Timestamp,
};

verus! {

/// Seconds without motion after which the light is switched off, where none
/// are configured.
pub const DEFAULT_LIGHT_ON_TIMEOUT_SECONDS: u64 = 300;

/// Seconds of quiet after a timeout before the machine is armed again, where
/// none are configured.
pub const DEFAULT_COOLDOWN_SECONDS: u64 = 10;

/// The phase that the machine is in.
#[derive(Debug, Clone, Copy, PartialEq, Eq, Structural)]
pub enum State {
    /// Armed: the light is off and motion may switch it on.
    Idle,
    /// Motion is being handled. Entered and left within one motion event.
    MotionDetected,
    /// The light is on and motion keeps it on.
    LightOn,
    /// The light is off and motion is ignored.
    Cooldown,
}

impl State {
    /// The name of the state, as a sequence of characters.
    pub open spec fn name(self) -> Seq<char> {
        match self {
            State::Idle => "idle"@,
            State::MotionDetected => "motion_detected"@,
            State::LightOn => "light_on"@,
            State::Cooldown => "cooldown"@,
        }
    }

    /// The name of the state.
    pub fn as_str(&self) -> (name: &'static str)
        ensures
            name@ == self.name(),
    {
        match self {
            State::Idle => "idle",
            State::MotionDetected => "motion_detected",
            State::LightOn => "light_on",
            State::Cooldown => "cooldown",
        }
    }
}

/// A change of state that observers are told of.
#[derive(Debug, Clone, Copy, PartialEq, Eq, Structural)]
pub struct StateChange {
    pub from: State,
    pub to: State,
}

/// Whether observers are told of a transition from `from` to `to`: the state
/// changes, and neither end is the transient `MotionDetected`.
pub open spec fn observable(from: State, to: State) -> bool {
    from != to && from != State::MotionDetected && to != State::MotionDetected
}

/// What a machine holds, with every time in nanoseconds.
pub struct MachineView {
    pub state: State,
    pub light_on_timeout: nat,
    pub cooldown: nat,
    pub last_motion: Option<nat>,
    pub state_entered: nat,
    /// The latest observable change that has not been taken yet.
    pub pending_change: Option<StateChange>,
}

impl MachineView {
    /// A machine as it is made: idle, nothing pending, entered at the origin
    /// of its clock.
    pub open spec fn initial(light_on_timeout_seconds: nat, cooldown_seconds: nat) -> MachineView {
        MachineView {
            state: State::Idle,
            light_on_timeout: seconds(light_on_timeout_seconds),
            cooldown: seconds(cooldown_seconds),
            last_motion: None,
            state_entered: 0,
            pending_change: None,
        }
    }

    /// The machine after it has entered `to` at `now`. An observable
    /// transition replaces the pending change.
    pub open spec fn enter(self, to: State, now: nat) -> MachineView {
        MachineView {
            state: to,
            state_entered: now,
            pending_change: if observable(self.state, to) {
                Some(StateChange { from: self.state, to })
            } else {
                self.pending_change
            },
            ..self
        }
    }

    /// Whether motion switches the light on: only an idle machine in low
    /// ambient light does.
    pub open spec fn motion_turns_on(self, ambient_light_is_low: bool) -> bool {
        self.state == State::Idle && ambient_light_is_low
    }

    /// The machine after motion at `now`.
    pub open spec fn after_motion(self, ambient_light_is_low: bool, now: nat) -> MachineView {
        match self.state {
            State::Idle => if ambient_light_is_low {
                MachineView {
                    state: State::LightOn,
                    last_motion: Some(now),
                    state_entered: now,
                    ..self
                }
            } else {
                MachineView { state: State::Idle, state_entered: now, ..self }
            },
            State::LightOn => MachineView { last_motion: Some(now), ..self },
            State::MotionDetected | State::Cooldown => self,
        }
    }

    /// Whether the light has been on without motion for the whole timeout at
    /// `now`.
    pub open spec fn timed_out(self, now: nat) -> bool {
        &&& self.state == State::LightOn
        &&& self.last_motion is Some
        &&& elapsed(now, self.last_motion->0) >= self.light_on_timeout
    }

    /// Whether the cooldown is over at `now`.
    pub open spec fn cooled_down(self, now: nat) -> bool {
        self.state == State::Cooldown && elapsed(now, self.state_entered) >= self.cooldown
    }

    /// The machine after a tick at `now`.
    pub open spec fn after_tick(self, now: nat) -> MachineView {
        if self.timed_out(now) {
            self.enter(State::Cooldown, now)
        } else if self.cooled_down(now) {
            self.enter(State::Idle, now)
        } else {
            self
        }
    }

    /// The machine after its pending change has been taken.
    pub open spec fn without_pending_change(self) -> MachineView {
        MachineView { pending_change: None, ..self }
    }

    /// What holds of a machine between any two events: no event leaves it in
    /// the transient state, and while the light is on the last motion is
    /// known.
    pub open spec fn settled(self) -> bool {
        &&& self.state != State::MotionDetected
        &&& self.state == State::LightOn ==> self.last_motion is Some
    }
}

/// Deterministic state machine for presence-based lighting. It models
/// behaviour and time only: sensor readings come in as arguments, and the
/// results say what the caller is to do with the light.
pub struct PresenceLightingStateMachine {
    state: State,
    light_on_timeout_seconds: u64,
    cooldown_seconds: u64,
    last_motion: Option<Timestamp>,
    state_entered: Timestamp,
    pending_change: Option<StateChange>,
    /// The origin of the machine's own clock.
    origin: std::time::Instant,
}

impl View for PresenceLightingStateMachine {
    type V = MachineView;

    closed spec fn view(&self) -> MachineView {
        MachineView {
            state: self.state,
            light_on_timeout: seconds(self.light_on_timeout_seconds as nat),
            cooldown: seconds(self.cooldown_seconds as nat),
            last_motion: match self.last_motion {
                Some(t) => Some(t@),
                None => None,
            },
            state_entered: self.state_entered@,
            pending_change: self.pending_change,
        }
    }
}

impl PresenceLightingStateMachine {
    /// An idle machine with the given timeout and cooldown. Its clock starts
    /// now.
    pub fn new(light_on_timeout_seconds: u64, cooldown_seconds: u64) -> (machine: Self)
        ensures
            machine@ == MachineView::initial(
                light_on_timeout_seconds as nat,
                cooldown_seconds as nat,
            ),
            machine@.settled(),
    {
        PresenceLightingStateMachine {
            state: State::Idle,
            light_on_timeout_seconds,
            cooldown_seconds,
            last_motion: None,
            state_entered: Timestamp { nanos: 0 },
            pending_change: None,
            origin: instant_now(),
        }
    }

    /// Reads the machine's clock.
    fn clock_reading(&self) -> (now: Timestamp) {
        let span = instant_elapsed(&self.origin);
        Timestamp { nanos: duration_as_nanos(&span) }
    }

    /// Enters `new_state` at `now`, and says whether observers are told.
    fn enter_state(&mut self, new_state: State, now: Timestamp) -> (reported: bool)
        ensures
            final(self)@ == old(self)@.enter(new_state, now@),
            reported == observable(old(self)@.state, new_state),
    {
        let old_state = self.state;
        self.state = new_state;
        self.state_entered = now;
        if old_state != new_state && old_state != State::MotionDetected && new_state
            != State::MotionDetected {
            self.pending_change = Some(StateChange { from: old_state, to: new_state });
            true
        } else {
            false
        }
    }

    /// Handles motion seen now, on the machine's own clock. Returns whether
    /// the caller is to switch the light on.
    pub fn on_motion_detected(&mut self, ambient_light_is_low: bool) -> (turn_on: bool)
        ensures
            turn_on == old(self)@.motion_turns_on(ambient_light_is_low),
            exists|now: nat| final(self)@ == #[trigger] old(self)@.after_motion(
                ambient_light_is_low,
                now,
            ),
            old(self)@.settled() ==> final(self)@.settled(),
    {
        let now = self.clock_reading();
        self.on_motion_detected_at(ambient_light_is_low, now)
    }

    /// Handles motion seen at `now`. Returns whether the caller is to switch
    /// the light on: only when the machine was idle and the ambient light is
    /// low. Motion while the light is on restarts the timeout; motion in any
    /// other state changes nothing. No observer is told of anything.
    pub fn on_motion_detected_at(
        &mut self,
        ambient_light_is_low: bool,
        now: Timestamp,
    ) -> (turn_on: bool)
        ensures
            turn_on == old(self)@.motion_turns_on(ambient_light_is_low),
            final(self)@ == old(self)@.after_motion(ambient_light_is_low, now@),
            old(self)@.settled() ==> final(self)@.settled(),
    {
        match self.state {
            State::Idle => {
                self.enter_state(State::MotionDetected, now);
                if ambient_light_is_low {
                    self.last_motion = Some(now);
                    self.enter_state(State::LightOn, now);
                    return true;
                }
                self.enter_state(State::Idle, now);
                false
            },
            State::LightOn => {
                self.last_motion = Some(now);
                false
            },
            State::MotionDetected | State::Cooldown => false,
        }
    }

    /// Lets time pass up to now, on the machine's own clock. Returns whether
    /// the caller is to switch the light off.
    pub fn tick(&mut self) -> (turn_off: bool)
        ensures
            exists|now: nat|
                {
                    &&& final(self)@ == #[trigger] old(self)@.after_tick(now)
                    &&& turn_off == old(self)@.timed_out(now)
                },
            turn_off ==> old(self)@.state == State::LightOn && final(self)@.state
                == State::Cooldown,
            old(self)@.settled() ==> final(self)@.settled(),
    {
        let now = self.clock_reading();
        self.tick_at(now)
    }

    /// Lets time pass up to `now`. Returns whether the caller is to switch the
    /// light off: exactly when the light is on and the timeout has passed
    /// since the last motion, and the machine then cools down. A cooldown
    /// that is over makes the machine idle again. Anything else changes
    /// nothing.
    pub fn tick_at(&mut self, now: Timestamp) -> (turn_off: bool)
        ensures
            turn_off == old(self)@.timed_out(now@),
            final(self)@ == old(self)@.after_tick(now@),
            old(self)@.settled() ==> final(self)@.settled(),
    {
        if self.state == State::LightOn {
            if let Some(last_motion) = self.last_motion {
                if now.nanos_since(last_motion) >= seconds_to_nanos(self.light_on_timeout_seconds) {
                    self.enter_state(State::Cooldown, now);
                    return true;
                }
            }
        }
        if self.state == State::Cooldown {
            if now.nanos_since(self.state_entered) >= seconds_to_nanos(self.cooldown_seconds) {
                self.enter_state(State::Idle, now);
            }
        }
        false
    }

    /// The state that the machine is in.
    pub fn get_state(&self) -> (state: State)
        ensures
            state == self@.state,
    {
        self.state
    }

    /// The time of the last motion that switched the light on or kept it on.
    pub fn last_motion(&self) -> (at: Option<Timestamp>)
        ensures
            at is Some <==> self@.last_motion is Some,
            at is Some ==> at->0@ == self@.last_motion->0,
    {
        self.last_motion
    }

    /// The time at which the machine entered its state.
    pub fn state_entered(&self) -> (at: Timestamp)
        ensures
            at@ == self@.state_entered,
    {
        self.state_entered
    }

    /// Takes the latest observable change of state out of the machine, if one
    /// has happened since the last call.
    pub fn take_state_change(&mut self) -> (change: Option<StateChange>)
        ensures
            change == old(self)@.pending_change,
            final(self)@ == old(self)@.without_pending_change(),
            old(self)@.settled() ==> final(self)@.settled(),
    {
        let change = self.pending_change;
        self.pending_change = None;
        change
    }

    /// Handles motion seen at `now`, as `on_motion_detected_at` does.
    pub fn test_on_motion_detected_at(
        &mut self,
        ambient_light_is_low: bool,
        now: Timestamp,
    ) -> (turn_on: bool)
        ensures
            turn_on == old(self)@.motion_turns_on(ambient_light_is_low),
            final(self)@ == old(self)@.after_motion(ambient_light_is_low, now@),
            old(self)@.settled() ==> final(self)@.settled(),
    {
        self.on_motion_detected_at(ambient_light_is_low, now)
    }

    /// Lets time pass up to `now`, as `tick_at` does.
    pub fn test_tick_at(&mut self, now: Timestamp) -> (turn_off: bool)
        ensures
            turn_off == old(self)@.timed_out(now@),
            final(self)@ == old(self)@.after_tick(now@),
            old(self)@.settled() ==> final(self)@.settled(),
    {
        self.tick_at(now)
    }
}

impl Default for PresenceLightingStateMachine {
    /// A machine with the default timeout and cooldown.
    fn default() -> (machine: Self)
        ensures
            machine@ == MachineView::initial(
                DEFAULT_LIGHT_ON_TIMEOUT_SECONDS as nat,
                DEFAULT_COOLDOWN_SECONDS as nat,
            ),
            machine@.settled(),
    {
        PresenceLightingStateMachine::new(
            DEFAULT_LIGHT_ON_TIMEOUT_SECONDS,
            DEFAULT_COOLDOWN_SECONDS,
        )
    }
}

} // verus!
