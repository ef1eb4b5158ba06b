//! The motion-sensor debounce actor: a state machine that coalesces rapid
//! arrivals into one "active" period with a trailing off-deadline, the
//! time-of-day gate its producers apply, and the intensity each sensor
//! class gets. The actor's thread loop lives in the embedding program; the
//! decisions it takes are all here.

use chrono::Timelike;
use vstd::prelude::*;

verus! {

/// Which sensor group an arrival came from.
#[derive(Clone, Copy, PartialEq, Eq, Structural, Debug)]
pub enum SensorName {
    LivingRoom,
    Middle,
    BedroomDoor,
    FrontDoor,
}

/// One arrival handed to the debounce actor: which sensor fired and how
/// long the lamp stays on without further arrivals.
#[derive(Clone, Copy, PartialEq, Eq, Structural, Debug)]
pub struct IrMessage {
    pub duration: u128,
    pub sensor: SensorName,
}

/// How long one arrival keeps the lamp on: five minutes for the trusted
/// front-door class, two minutes for everything else.
pub open spec fn spec_calc_duration(sensor: SensorName) -> u128 {
    if sensor == SensorName::FrontDoor {
        300000
    } else {
        120000
    }
}

pub fn calc_duration(sensor: SensorName) -> (r: u128)
    ensures
        r == spec_calc_duration(sensor),
{
    if sensor == SensorName::FrontDoor {
        5 * 60 * 1000
    } else {
        2 * 60 * 1000
    }
}

/// The time-of-day gate: a front-door arrival always passes; any other
/// sensor class passes only in the away hours, after 16 or before 10.
pub open spec fn spec_gate_allows(hour: u32, sensor: SensorName) -> bool {
    hour > 16 || hour < 10 || sensor == SensorName::FrontDoor
}

pub fn gate_allows(hour: u32, sensor: SensorName) -> (r: bool)
    ensures
        r == spec_gate_allows(hour, sensor),
{
    hour > 16 || hour < 10 || sensor == SensorName::FrontDoor
}

/// The lamp intensity an arrival asks for: full for the front door, a dim
/// night level between 22:00 and 05:59, full otherwise.
pub open spec fn spec_calc_power(sensor: SensorName, hour: u32) -> u8 {
    if sensor == SensorName::FrontDoor {
        100
    } else if hour >= 22 || hour <= 5 {
        3
    } else {
        100
    }
}

pub fn calc_power(sensor: SensorName, hour: u32) -> (r: u8)
    ensures
        r == spec_calc_power(sensor, hour),
        r <= 100,
{
    if sensor == SensorName::FrontDoor {
        100
    } else if hour >= 22 || hour <= 5 {
        3
    } else {
        100
    }
}

/// What a producer posts for one sensor event at a given hour: the message
/// with the sensor's duration if the hour admits it, and nothing at all
/// otherwise — a gated arrival is dropped, not queued.
pub open spec fn spec_send_decision(hour: u32, sensor: SensorName) -> Option<IrMessage> {
    if spec_gate_allows(hour, sensor) {
        Some(IrMessage { duration: spec_calc_duration(sensor), sensor })
    } else {
        None
    }
}

pub fn send_decision(hour: u32, sensor: SensorName) -> (r: Option<IrMessage>)
    ensures
        r == spec_send_decision(hour, sensor),
{
    if gate_allows(hour, sensor) {
        Some(IrMessage { duration: calc_duration(sensor), sensor })
    } else {
        None
    }
}

/// Relies on chrono::Local::now and chrono::Timelike::hour: the local
/// wall-clock hour, documented as 0 to 23. Which hour comes back depends on
/// the clock and the time zone, so nothing more is promised.
#[verifier::external_body]
pub fn local_hour() -> (h: u32)
    ensures
        h < 24,
{
    chrono::Local::now().hour()
}

/// Applies the time-of-day gate at the current local hour. Whatever hour
/// the clock reads, the result is the right decision for that hour.
pub fn send_msg(sensor: SensorName) -> (r: Option<IrMessage>)
    ensures
        exists|h: u32| h < 24 && r == spec_send_decision(h, sensor),
{
    let hour = local_hour();
    let r = send_decision(hour, sensor);
    proof {
        assert(hour < 24 && r == spec_send_decision(hour, sensor));
    }
    r
}

/// The debounce actor's state: whether a sensor period is active, when it
/// lapses, and which sensor is considered active.
#[derive(Clone, Copy)]
pub struct DebounceState {
    pub is_on: bool,
    pub off_time: u128,
    pub sensor: SensorName,
}

/// What an arrival does to the actor. While idle and enabled, the period
/// starts and the on-action runs; while active, the deadline is replaced —
/// not extended by the maximum — and the on-action does not run again;
/// while idle and disabled, nothing changes.
pub open spec fn spec_on_arrival(
    s: DebounceState,
    msg: IrMessage,
    enabled: bool,
    now: u128,
) -> (DebounceState, bool) {
    if s.is_on {
        (
            DebounceState {
                is_on: true,
                off_time: (now + msg.duration) as u128,
                sensor: msg.sensor,
            },
            false,
        )
    } else if enabled {
        (
            DebounceState {
                is_on: true,
                off_time: (now + msg.duration) as u128,
                sensor: msg.sensor,
            },
            true,
        )
    } else {
        (s, false)
    }
}

/// What the periodic timeout check does: once the deadline has passed, the
/// period ends and the off-action runs; otherwise nothing changes.
pub open spec fn spec_on_tick(s: DebounceState, now: u128) -> (DebounceState, bool) {
    if s.is_on && s.off_time < now {
        (DebounceState { is_on: false, ..s }, true)
    } else {
        (s, false)
    }
}

impl DebounceState {
    pub fn new(now: u128) -> (s: DebounceState)
        ensures
            s == (DebounceState { is_on: false, off_time: now, sensor: SensorName::Middle }),
    {
        DebounceState { is_on: false, off_time: now, sensor: SensorName::Middle }
    }

    /// Consumes one arrival; the result says whether the on-action must be
    /// invoked for it.
    pub fn on_arrival(&mut self, msg: IrMessage, enabled: bool, now: u128) -> (invoke_on: bool)
        requires
            now + msg.duration <= u128::MAX,
        ensures
            (*final(self), invoke_on) == spec_on_arrival(*old(self), msg, enabled, now),
    {
        if self.is_on {
            self.sensor = msg.sensor;
            self.off_time = now + msg.duration;
            false
        } else if enabled {
            self.sensor = msg.sensor;
            self.is_on = true;
            self.off_time = now + msg.duration;
            true
        } else {
            false
        }
    }

    /// Checks the off-deadline; the result says whether the off-action must
    /// be invoked, with the last active sensor's context.
    pub fn on_tick(&mut self, now: u128) -> (invoke_off: bool)
        ensures
            (*final(self), invoke_off) == spec_on_tick(*old(self), now),
    {
        if self.is_on && self.off_time < now {
            self.is_on = false;
            true
        } else {
            false
        }
    }
}

/// Debounce re-entrancy: a second arrival before the deadline lapses does
/// not re-invoke the on-action; it only replaces the deadline. Over the
/// whole double-arrival episode the on-action runs exactly once, at the
/// first arrival, and the off-action fires exactly when a tick comes after
/// the second arrival's own deadline.
pub proof fn lemma_debounce_reentrancy(
    s0: DebounceState,
    m1: IrMessage,
    m2: IrMessage,
    t1: u128,
    t2: u128,
    t: u128,
)
    requires
        !s0.is_on,
        t1 + m1.duration <= u128::MAX,
        t2 + m2.duration <= u128::MAX,
        t1 <= t2 <= t1 + m1.duration,
    ensures
        ({
            let (s1, on1) = spec_on_arrival(s0, m1, true, t1);
            let (s2, on2) = spec_on_arrival(s1, m2, true, t2);
            &&& on1
            &&& !on2
            &&& forall|u: u128| u <= t2 ==> spec_on_tick(s1, u) == (s1, false)
            &&& s2.off_time == t2 + m2.duration
            &&& spec_on_tick(s2, t) == if t > t2 + m2.duration {
                (DebounceState { is_on: false, ..s2 }, true)
            } else {
                (s2, false)
            }
        }),
{
}

/// Time-gated drop: outside the allowed window, a gated sensor class
/// produces no message at all, so the actor's queue and state are
/// untouched.
pub proof fn lemma_time_gated_drop(hour: u32, sensor: SensorName)
    requires
        !spec_gate_allows(hour, sensor),
    ensures
        spec_send_decision(hour, sensor) == Option::<IrMessage>::None,
{
}

} // verus!
