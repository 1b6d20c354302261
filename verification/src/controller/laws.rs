//! What holds of the state machine over all inputs, proved of its model.

use vstd::prelude::*;
use crate::controller::state_machine::{observable, MachineView, State, StateChange};
use crate::time::elapsed;

verus! {

/// The machine after motion in ambient light `ambient_light_is_low` at each
/// of `times`, in order.
pub open spec fn after_motions(
    m: MachineView,
    ambient_light_is_low: bool,
    times: Seq<nat>,
) -> MachineView
    decreases times.len(),
{
    if times.len() == 0 {
        m
    } else {
        after_motions(m, ambient_light_is_low, times.drop_last()).after_motion(
            ambient_light_is_low,
            times.last(),
        )
    }
}

/// The machine after a tick at each of `times`, in order.
pub open spec fn after_ticks(m: MachineView, times: Seq<nat>) -> MachineView
    decreases times.len(),
{
    if times.len() == 0 {
        m
    } else {
        after_ticks(m, times.drop_last()).after_tick(times.last())
    }
}

/// Motion in bright ambient light leaves an idle machine idle, and the light
/// off.
pub proof fn idle_motion_in_bright_light_stays_idle(m: MachineView, now: nat)
    requires
        m.state == State::Idle,
    ensures
        !m.motion_turns_on(false),
        m.after_motion(false, now).state == State::Idle,
{
}

/// Motion in low ambient light switches an idle machine's light on, and the
/// machine remembers when.
pub proof fn idle_motion_in_low_light_turns_on(m: MachineView, now: nat)
    requires
        m.state == State::Idle,
    ensures
        m.motion_turns_on(true),
        m.after_motion(true, now).state == State::LightOn,
        m.after_motion(true, now).last_motion == Some(now),
{
}

/// While the light is on, motion never switches it on again: it restarts the
/// timeout and the light stays on.
pub proof fn motion_while_light_on_refreshes(m: MachineView, ambient_light_is_low: bool, now: nat)
    requires
        m.state == State::LightOn,
    ensures
        !m.motion_turns_on(ambient_light_is_low),
        m.after_motion(ambient_light_is_low, now).state == State::LightOn,
        m.after_motion(ambient_light_is_low, now).last_motion == Some(now),
        m.after_motion(ambient_light_is_low, now) == (MachineView { last_motion: Some(now), ..m }),
{
}

/// While the light is on, any run of motion events in low ambient light
/// keeps the light on, and the last motion is the time of the last event.
pub proof fn motions_while_light_on_keep_it_on(m: MachineView, times: Seq<nat>)
    requires
        m.state == State::LightOn,
    ensures
        after_motions(m, true, times).state == State::LightOn,
        times.len() > 0 ==> after_motions(m, true, times).last_motion == Some(times.last()),
    decreases times.len(),
{
    if times.len() > 0 {
        motions_while_light_on_keep_it_on(m, times.drop_last());
    }
}

/// While the light is on, every event of a run of motion events at times
/// that increase returns `false` and sets the last motion to its own time.
pub proof fn repeated_motion_while_light_on(m: MachineView, times: Seq<nat>, k: int)
    requires
        m.state == State::LightOn,
        forall|i: int, j: int| 0 <= i < j < times.len() ==> times[i] < times[j],
        0 <= k < times.len(),
    ensures
        !after_motions(m, true, times.take(k)).motion_turns_on(true),
        after_motions(m, true, times.take(k + 1)) == after_motions(
            m,
            true,
            times.take(k),
        ).after_motion(true, times[k]),
        after_motions(m, true, times.take(k + 1)).state == State::LightOn,
        after_motions(m, true, times.take(k + 1)).last_motion == Some(times[k]),
{
    let upto = times.take(k + 1);
    assert(upto.drop_last() == times.take(k));
    assert(upto.last() == times[k]);
    motions_while_light_on_keep_it_on(m, times.take(k));
    motions_while_light_on_keep_it_on(m, upto);
}

/// A tick before the timeout has passed since the last motion changes
/// nothing, and does not switch the light off.
pub proof fn tick_before_timeout_changes_nothing(m: MachineView, last_motion: nat, now: nat)
    requires
        m.state == State::LightOn,
        m.last_motion == Some(last_motion),
        elapsed(now, last_motion) < m.light_on_timeout,
    ensures
        !m.timed_out(now),
        m.after_tick(now) == m,
{
}

/// Any run of ticks that all come before the timeout has passed leaves the
/// machine as it was.
pub proof fn ticks_before_timeout_change_nothing(m: MachineView, last_motion: nat, times: Seq<nat>)
    requires
        m.state == State::LightOn,
        m.last_motion == Some(last_motion),
        forall|i: int| 0 <= i < times.len() ==> elapsed(times[i], last_motion) < m.light_on_timeout,
    ensures
        after_ticks(m, times) == m,
    decreases times.len(),
{
    if times.len() > 0 {
        ticks_before_timeout_change_nothing(m, last_motion, times.drop_last());
    }
}

/// The timeout is exact and fires once. Ticks before the timeout has passed
/// since the last motion return `false`; the first tick at or after it
/// returns `true` and starts the cooldown at that time; a tick that follows
/// within the cooldown returns `false` and the machine keeps cooling down.
pub proof fn timeout_fires_once_at_first_crossing(
    m: MachineView,
    last_motion: nat,
    before: Seq<nat>,
    crossing: nat,
    later: nat,
)
    requires
        m.state == State::LightOn,
        m.last_motion == Some(last_motion),
        forall|i: int|
            0 <= i < before.len() ==> elapsed(before[i], last_motion) < m.light_on_timeout,
        elapsed(crossing, last_motion) >= m.light_on_timeout,
        elapsed(later, crossing) < m.cooldown,
    ensures
        forall|i: int|
            0 <= i < before.len() ==> !(#[trigger] after_ticks(m, before.take(i))).timed_out(
                before[i],
            ),
        after_ticks(m, before.push(crossing).drop_last()).timed_out(crossing),
        after_ticks(m, before.push(crossing)).state == State::Cooldown,
        after_ticks(m, before.push(crossing)).state_entered == crossing,
        after_ticks(m, before.push(crossing)) == m.enter(State::Cooldown, crossing),
        !after_ticks(m, before.push(crossing)).timed_out(later),
        after_ticks(m, before.push(crossing).push(later)) == after_ticks(m, before.push(crossing)),
{
    assert forall|i: int| 0 <= i < before.len() implies !(#[trigger] after_ticks(
        m,
        before.take(i),
    )).timed_out(before[i]) by {
        ticks_before_timeout_change_nothing(m, last_motion, before.take(i));
    }
    ticks_before_timeout_change_nothing(m, last_motion, before);
    let through = before.push(crossing);
    assert(through.drop_last() == before);
    assert(through.last() == crossing);
    assert(through.push(later).drop_last() == through);
}

/// A tick switches the light off exactly when the light is on and the
/// timeout has passed since the last motion; in every state but `LightOn` it
/// returns `false`.
pub proof fn tick_turns_off_only_on_timeout(m: MachineView, now: nat)
    ensures
        m.timed_out(now) ==> m.state == State::LightOn && m.after_tick(now).state
            == State::Cooldown,
        m.state != State::LightOn ==> !m.timed_out(now),
        m.timed_out(now) ==> forall|later: nat| !m.after_tick(now).timed_out(later),
{
}

/// A machine that began to cool down at `entered` keeps cooling down at every
/// tick before the cooldown has passed, and is idle after the first tick at
/// or after it. No such tick switches the light off.
pub proof fn cooldown_expires_at_first_crossing(m: MachineView, entered: nat, now: nat)
    requires
        m.state == State::Cooldown,
        m.state_entered == entered,
    ensures
        !m.timed_out(now),
        elapsed(now, entered) < m.cooldown ==> m.after_tick(now) == m,
        elapsed(now, entered) >= m.cooldown ==> m.after_tick(now).state == State::Idle,
        elapsed(now, entered) >= m.cooldown ==> m.after_tick(now) == m.enter(State::Idle, now),
{
}

/// Motion while the machine cools down, or while it is in the transient
/// `MotionDetected`, changes nothing and does not switch the light on.
pub proof fn motion_is_ignored_outside_idle_and_light_on(
    m: MachineView,
    ambient_light_is_low: bool,
    now: nat,
)
    requires
        m.state == State::Cooldown || m.state == State::MotionDetected,
    ensures
        !m.motion_turns_on(ambient_light_is_low),
        m.after_motion(ambient_light_is_low, now) == m,
{
}

/// With a timeout and a cooldown of zero, the first tick after the light
/// went on switches it off, and the tick after that makes the machine idle,
/// whatever the times of the two ticks.
pub proof fn zero_durations_pass_at_once(m: MachineView, first: nat, second: nat)
    requires
        m.light_on_timeout == 0,
        m.cooldown == 0,
        m.state == State::LightOn,
        m.last_motion is Some,
    ensures
        m.timed_out(first),
        m.after_tick(first).state == State::Cooldown,
        !m.after_tick(first).timed_out(second),
        m.after_tick(first).after_tick(second).state == State::Idle,
{
}

/// The light is switched on only by motion in an idle machine: motion
/// returns `true` exactly when it takes the machine from `Idle` to `LightOn`.
pub proof fn motion_turns_on_only_from_idle(m: MachineView, ambient_light_is_low: bool, now: nat)
    ensures
        m.motion_turns_on(ambient_light_is_low) <==> m.state == State::Idle && m.after_motion(
            ambient_light_is_low,
            now,
        ).state == State::LightOn,
{
}

/// No event leaves a settled machine unsettled: a new machine is settled, and
/// motion, a tick and the taking of the pending change keep it so. The
/// configured durations never change.
pub proof fn events_keep_machine_settled(m: MachineView, ambient_light_is_low: bool, now: nat)
    requires
        m.settled(),
    ensures
        m.after_motion(ambient_light_is_low, now).settled(),
        m.after_tick(now).settled(),
        m.without_pending_change().settled(),
        m.after_motion(ambient_light_is_low, now).light_on_timeout == m.light_on_timeout,
        m.after_motion(ambient_light_is_low, now).cooldown == m.cooldown,
        m.after_tick(now).light_on_timeout == m.light_on_timeout,
        m.after_tick(now).cooldown == m.cooldown,
{
}

/// The time of the last motion is read only while the light is on: in any
/// other state a tick does the same whatever that time is, and motion that
/// switches the light on replaces it.
pub proof fn last_motion_matters_only_while_light_on(
    m: MachineView,
    other: Option<nat>,
    ambient_light_is_low: bool,
    now: nat,
)
    requires
        m.state != State::LightOn,
    ensures
        (MachineView { last_motion: other, ..m }).timed_out(now) == m.timed_out(now),
        (MachineView { last_motion: other, ..m }).after_tick(now) == (MachineView {
            last_motion: other,
            ..m.after_tick(now)
        }),
        (MachineView { last_motion: other, ..m }).motion_turns_on(ambient_light_is_low)
            == m.motion_turns_on(ambient_light_is_low),
        m.motion_turns_on(ambient_light_is_low) ==> (MachineView {
            last_motion: other,
            ..m
        }).after_motion(ambient_light_is_low, now) == m.after_motion(ambient_light_is_low, now),
{
}

/// A new machine is settled.
pub proof fn initial_machine_is_settled(light_on_timeout_seconds: nat, cooldown_seconds: nat)
    ensures
        MachineView::initial(light_on_timeout_seconds, cooldown_seconds).settled(),
{
}

/// Motion goes through the transient state, and no step of that path is
/// observable: handling motion is the same as entering `MotionDetected` and
/// then the state that motion leads to, and it leaves the pending change as
/// it was.
pub proof fn motion_passes_through_transient_state_unobserved(
    m: MachineView,
    ambient_light_is_low: bool,
    now: nat,
)
    requires
        m.state == State::Idle,
    ensures
        !observable(m.state, State::MotionDetected),
        !observable(State::MotionDetected, State::LightOn),
        !observable(State::MotionDetected, State::Idle),
        m.after_motion(true, now) == (MachineView {
            last_motion: Some(now),
            ..m.enter(State::MotionDetected, now)
        }).enter(State::LightOn, now),
        m.after_motion(false, now) == m.enter(State::MotionDetected, now).enter(State::Idle, now),
        m.after_motion(ambient_light_is_low, now).pending_change == m.pending_change,
{
}

/// A tick tells observers exactly of the change of state
/// that it makes: the pending change is replaced where the state changes, and
/// kept where it does not.
pub proof fn tick_reports_every_change(m: MachineView, now: nat)
    ensures
        m.after_tick(now).state != m.state ==> m.after_tick(now).pending_change == Some(
            StateChange { from: m.state, to: m.after_tick(now).state },
        ),
        m.after_tick(now).state == m.state ==> m.after_tick(now) == m,
{
}

} // verus!
