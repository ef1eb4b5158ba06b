//! Wall-switch sensor state: whether a stateful switch is on, when it was
//! last acted on, and how an incoming action changes it.

use vstd::prelude::*;

verus! {

/// What a sensor event asks a switch to do.
#[derive(Clone, Copy, PartialEq, Eq, Structural, Debug)]
pub enum ActionType {
    On,
    Off,
    Toggle,
}

impl ActionType {
    /// Parses the wire words "ON" and "OFF"; anything else is rejected.
    pub fn from_str(s: &str) -> (r: Result<ActionType, ()>)
        ensures
            r == if s@ == "ON"@ {
                Ok::<ActionType, ()>(ActionType::On)
            } else if s@ == "OFF"@ {
                Ok::<ActionType, ()>(ActionType::Off)
            } else {
                Err::<ActionType, ()>(())
            },
    {
        let owned = s.to_owned();
        if owned == "ON".to_owned() {
            Ok(ActionType::On)
        } else if owned == "OFF".to_owned() {
            Ok(ActionType::Off)
        } else {
            Err(())
        }
    }
}

/// How an action changes a switch's on/off state.
pub open spec fn spec_apply_action(action: ActionType, is_on: bool) -> bool {
    match action {
        ActionType::On => true,
        ActionType::Off => false,
        ActionType::Toggle => !is_on,
    }
}

/// The state a stateful wall switch keeps: its believed position and the
/// time (ms) it was last acted on.
#[derive(Clone, Copy)]
pub struct SwitchState {
    pub is_on: bool,
    pub last_update: u128,
}

impl SwitchState {
    pub fn new() -> (s: SwitchState)
        ensures
            s == (SwitchState { is_on: false, last_update: 0 }),
    {
        SwitchState { is_on: false, last_update: 0 }
    }

    /// Flips the switch's believed position.
    pub fn cas(&mut self)
        ensures
            *final(self) == (SwitchState { is_on: !old(self).is_on, ..*old(self) }),
    {
        self.is_on = !self.is_on;
    }

    /// Records that the switch was acted on at `now`.
    pub fn update_time(&mut self, now: u128)
        ensures
            *final(self) == (SwitchState { last_update: now, ..*old(self) }),
    {
        self.last_update = now;
    }

    /// Applies one action at time `now` and reports the resulting position,
    /// which the switch's device callback receives.
    pub fn act(&mut self, action: ActionType, now: u128) -> (is_on: bool)
        ensures
            final(self).is_on == spec_apply_action(action, old(self).is_on),
            final(self).last_update == now,
            is_on == final(self).is_on,
    {
        match action {
            ActionType::On => self.is_on = true,
            ActionType::Off => self.is_on = false,
            ActionType::Toggle => self.cas(),
        }
        self.update_time(now);
        self.is_on
    }
}

} // verus!
