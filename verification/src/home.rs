//! The rooms, their devices, and the automation rules that drive them: the
//! toilet fan timer, the corridor motion handler, and the switch-everything-
//! off script. Each rule says exactly which device states it leaves behind
//! and which commands it queues.

use crate::debounce::{calc_power, spec_calc_power, SensorName};
use crate::devices::serial::{SerialDimmer, SerialSwitch};
use crate::devices::web::{spec_set_state, BeamState, LedMode, LedState, WebBeam, WebSwitch};
use crate::devices::{Flush, Switch};
use crate::io::IO;
use crate::runtime::{spec_after, spec_stop, ActionId, RtTimer, Tasks};
use crate::sensors::SwitchState;
use vstd::prelude::*;

verus! {

/// The action a toilet visit schedules: switch the fan off again.
pub const ACTION_TOILET_FUN_OFF: ActionId = 1;

/// The action the periodic background task runs: re-send every web beam's
/// believed state.
pub const ACTION_UPDATE_WEB_DEVICES: ActionId = 2;

/// How long the fan runs after a long visit, in ms.
pub const TOILET_FUN_RUN_MS: u128 = 180000;

/// A visit shorter than this does not earn a fan run, in ms.
pub const TOILET_SHORT_VISIT_MS: u128 = 30000;

pub struct LivingRoom {
    pub chandelier: SerialSwitch,
    pub cupboard_lamp: SerialSwitch,
    pub beam: WebBeam,
}

impl LivingRoom {
    pub open spec fn is_initial(self) -> bool {
        &&& self.chandelier.id@ == "living_room_lamp"@ && self.chandelier.p_id == 0x02
            && !self.chandelier.is_on
        &&& self.cupboard_lamp.id@ == "cupboard_lamp"@ && self.cupboard_lamp.p_id == 0x06
            && !self.cupboard_lamp.is_on
        &&& self.beam.id@ == "lounge_beam"@ && !self.beam.channel_1.is_on
            && !self.beam.channel_2.is_on
    }

    pub fn new() -> (r: LivingRoom)
        ensures
            r.is_initial(),
    {
        LivingRoom {
            chandelier: SerialSwitch::new("living_room_lamp", 0x02),
            cupboard_lamp: SerialSwitch::new("cupboard_lamp", 0x06),
            beam: WebBeam::new("lounge_beam"),
        }
    }
}

pub struct Kitchen {
    pub beam: WebBeam,
    pub kitchen_lamp: SerialDimmer,
}

impl Kitchen {
    pub open spec fn wf(self) -> bool {
        self.kitchen_lamp.wf()
    }

    pub open spec fn is_initial(self) -> bool {
        &&& self.beam.id@ == "kitchen_beam"@ && !self.beam.channel_1.is_on
            && !self.beam.channel_2.is_on
        &&& self.kitchen_lamp.id@ == "kitchen_lamp"@ && self.kitchen_lamp.p_id == 0x04
            && self.kitchen_lamp.min_value == 1 && self.kitchen_lamp.max_value == 100
            && !self.kitchen_lamp.is_on && self.kitchen_lamp.brightness == 100
    }

    pub fn new() -> (r: Kitchen)
        ensures
            r.is_initial(),
            r.wf(),
    {
        Kitchen {
            beam: WebBeam::new("kitchen_beam"),
            kitchen_lamp: SerialDimmer::new("kitchen_lamp", 0x04, 1, 100),
        }
    }
}

pub struct Balcony {
    pub lamp: SerialSwitch,
}

impl Balcony {
    pub open spec fn is_initial(self) -> bool {
        self.lamp.id@ == "balcony_lamp"@ && self.lamp.p_id == 0x05 && !self.lamp.is_on
    }

    pub fn new() -> (r: Balcony)
        ensures
            r.is_initial(),
    {
        Balcony { lamp: SerialSwitch::new("balcony_lamp", 0x05) }
    }
}

pub struct BadRoom {
    pub chandelier: SerialSwitch,
}

impl BadRoom {
    pub open spec fn is_initial(self) -> bool {
        self.chandelier.id@ == "bedroom_lamp"@ && self.chandelier.p_id == 0x01
            && !self.chandelier.is_on
    }

    pub fn new() -> (r: BadRoom)
        ensures
            r.is_initial(),
    {
        BadRoom { chandelier: SerialSwitch::new("bedroom_lamp", 0x01) }
    }
}

pub struct Bathroom {
    pub lamp: SerialDimmer,
    pub fun: SerialSwitch,
    pub hot_water: WebSwitch,
    pub cold_water: WebSwitch,
    pub return_water: WebSwitch,
}

impl Bathroom {
    pub open spec fn wf(self) -> bool {
        self.lamp.wf()
    }

    pub open spec fn is_initial(self) -> bool {
        &&& self.lamp.id@ == "bathroom_lamp"@ && self.lamp.p_id == 0x01 && self.lamp.min_value
            == 20 && self.lamp.max_value == 100 && !self.lamp.is_on && self.lamp.brightness == 100
        &&& self.fun.id@ == "bathroom_fun"@ && self.fun.p_id == 0x04 && !self.fun.is_on
        &&& self.hot_water.id@ == "hot_water"@ && !self.hot_water.is_on
        &&& self.cold_water.id@ == "cold_water"@ && !self.cold_water.is_on
        &&& self.return_water.id@ == "return_water"@ && !self.return_water.is_on
    }

    pub fn new() -> (r: Bathroom)
        ensures
            r.is_initial(),
            r.wf(),
    {
        Bathroom {
            lamp: SerialDimmer::new("bathroom_lamp", 0x01, 20, 100),
            fun: SerialSwitch::new("bathroom_fun", 0x04),
            hot_water: WebSwitch::new("hot_water"),
            cold_water: WebSwitch::new("cold_water"),
            return_water: WebSwitch::new("return_water"),
        }
    }
}

/// The corridor: a dimmable lamp the motion sensors drive, a beam, and the
/// flag that lets a scene disable the motion automation.
pub struct Corridor {
    pub lamp: SerialDimmer,
    pub beam: WebBeam,
    pub ir_enabled: bool,
}

impl Corridor {
    pub open spec fn wf(self) -> bool {
        self.lamp.wf()
    }

    pub open spec fn is_initial(self) -> bool {
        &&& self.lamp.id@ == "corridor_lamp"@ && self.lamp.p_id == 0x03 && self.lamp.min_value
            == 1 && self.lamp.max_value == 100 && !self.lamp.is_on && self.lamp.brightness == 100
        &&& self.beam.id@ == "corridor_beam"@ && !self.beam.channel_1.is_on
            && !self.beam.channel_2.is_on
        &&& self.ir_enabled
    }

    pub fn new() -> (r: Corridor)
        ensures
            r.is_initial(),
            r.wf(),
    {
        Corridor {
            lamp: SerialDimmer::new("corridor_lamp", 0x03, 1, 100),
            beam: WebBeam::new("corridor_beam"),
            ir_enabled: true,
        }
    }

    pub fn enable_ir(&mut self)
        ensures
            *final(self) == (Corridor { ir_enabled: true, ..*old(self) }),
    {
        self.ir_enabled = true;
    }

    pub fn disable_ir(&mut self)
        ensures
            *final(self) == (Corridor { ir_enabled: false, ..*old(self) }),
    {
        self.ir_enabled = false;
    }

    /// The debounce actor's device action: on activation, light the lamp at
    /// the intensity the sensor class and hour call for; on lapse, switch
    /// it off.
    pub fn ir_handler(&mut self, io: &mut IO, is_on: bool, sensor: SensorName, hour: u32)
        requires
            old(self).wf(),
        ensures
            final(self).wf(),
            final(self).beam == old(self).beam,
            final(self).ir_enabled == old(self).ir_enabled,
            is_on ==> final(self).lamp == (SerialDimmer {
                is_on: true,
                brightness: spec_calc_power(sensor, hour),
                ..old(self).lamp
            }),
            !is_on ==> final(self).lamp == (SerialDimmer { is_on: false, ..old(self).lamp }),
            final(io).serial_out@ == old(io).serial_out@.push(final(self).lamp.spec_cmd()),
            final(io).web_out@ == old(io).web_out@,
    {
        if is_on {
            let power = calc_power(sensor, hour);
            self.lamp.set_power(power);
            self.lamp.switch(true, io);
        } else {
            self.lamp.switch(false, io);
        }
    }
}

/// The toilet: a lamp, a fan, the wall switch's state, and the one-shot
/// timer that turns the fan off after a long visit.
pub struct Toilet {
    pub lamp: SerialDimmer,
    pub fun: SerialSwitch,
    pub switch: SwitchState,
    pub timer: RtTimer,
}

impl Toilet {
    /// The lamp percentages are sane and the fan timer fires inline on the
    /// scheduler thread, as the wall switch arms it.
    pub open spec fn wf(self) -> bool {
        &&& self.lamp.wf()
        &&& !self.timer.spec_long_term()
    }

    pub open spec fn is_initial(self) -> bool {
        &&& self.lamp.id@ == "toilet_lamp"@ && self.lamp.p_id == 0x02 && self.lamp.min_value == 25
            && self.lamp.max_value == 100 && !self.lamp.is_on && self.lamp.brightness == 100
        &&& self.fun.id@ == "toilet_fun"@ && self.fun.p_id == 0x03 && !self.fun.is_on
        &&& self.switch == (SwitchState { is_on: false, last_update: 0 })
        &&& self.timer.spec_descriptor() == Option::<u128>::None
    }

    pub fn new() -> (r: Toilet)
        ensures
            r.is_initial(),
            r.wf(),
    {
        Toilet {
            lamp: SerialDimmer::new("toilet_lamp", 0x02, 25, 100),
            fun: SerialSwitch::new("toilet_fun", 0x03),
            switch: SwitchState::new(),
            timer: RtTimer::new(false),
        }
    }

    /// One press of the toilet's wall switch, a toggle driven by the lamp's
    /// state.
    ///
    /// Turning the light on forces the fan off and cancels any pending
    /// fan-off task. Turning it off after a visit of `TOILET_SHORT_VISIT_MS`
    /// or longer starts the fan and schedules its shutoff
    /// `TOILET_FUN_RUN_MS` from now; a shorter visit just forces the fan
    /// off. The switch's own timestamp moves to `now` either way.
    pub fn on_switch(&mut self, tasks: &mut Tasks, io: &mut IO, now: u128)
        requires
            old(self).wf(),
            old(tasks).wf(),
            old(self).timer.wf_for(*old(tasks)),
            old(tasks).spec_counter() < u128::MAX,
            now + TOILET_FUN_RUN_MS <= u128::MAX,
            now >= old(self).switch.last_update,
        ensures
            final(self).wf(),
            final(tasks).wf(),
            final(self).timer.wf_for(*final(tasks)),
            final(self).switch.last_update == now,
            final(self).switch.is_on == old(self).switch.is_on,
            final(self).lamp == (SerialDimmer { is_on: !old(self).lamp.is_on, ..old(self).lamp }),
            final(io).web_out@ == old(io).web_out@,
            // turning the light on: fan forced off, pending shutoff cancelled
            !old(self).lamp.is_on ==> {
                &&& final(self).fun == (SerialSwitch { is_on: false, ..old(self).fun })
                &&& final(tasks)@ == spec_stop(old(tasks)@, old(self).timer.spec_descriptor())
                &&& final(tasks).spec_counter() == old(tasks).spec_counter()
                &&& final(self).timer.spec_descriptor() == old(self).timer.spec_descriptor()
                &&& final(io).serial_out@ == old(io).serial_out@ + seq![
                    final(self).fun.spec_cmd(),
                    final(self).lamp.spec_cmd(),
                ]
            },
            // turning it off after a long visit: fan on, shutoff scheduled
            old(self).lamp.is_on && now - old(self).switch.last_update >= TOILET_SHORT_VISIT_MS
                ==> {
                &&& final(self).fun == (SerialSwitch { is_on: true, ..old(self).fun })
                &&& final(tasks)@ == spec_after(
                    old(tasks)@,
                    old(self).timer.spec_descriptor(),
                    old(tasks).spec_counter(),
                    TOILET_FUN_RUN_MS,
                    ACTION_TOILET_FUN_OFF,
                    false,
                    now,
                )
                &&& final(self).timer.spec_descriptor() == Some(
                    (old(tasks).spec_counter() + 1) as u128,
                )
                &&& final(io).serial_out@ == old(io).serial_out@ + seq![
                    final(self).fun.spec_cmd(),
                    final(self).lamp.spec_cmd(),
                ]
            },
            // turning it off after a short visit: no fan run
            old(self).lamp.is_on && now - old(self).switch.last_update < TOILET_SHORT_VISIT_MS
                ==> {
                &&& final(self).fun == (SerialSwitch { is_on: false, ..old(self).fun })
                &&& final(tasks)@ == old(tasks)@
                &&& final(tasks).spec_counter() == old(tasks).spec_counter()
                &&& final(self).timer.spec_descriptor() == old(self).timer.spec_descriptor()
                &&& final(io).serial_out@ == old(io).serial_out@ + seq![
                    final(self).fun.spec_cmd(),
                    final(self).lamp.spec_cmd(),
                ]
            },
    {
        let ghost serial0 = io.serial_out@;
        if !self.lamp.is_on() {
            self.fun.switch(false, io);
            self.lamp.switch(true, io);
            self.timer.stop(tasks);
            proof {
                assert(io.serial_out@ =~= serial0 + seq![self.fun.spec_cmd(), self.lamp.spec_cmd()]);
            }
        } else {
            if now - self.switch.last_update >= TOILET_SHORT_VISIT_MS {
                self.fun.switch(true, io);
                self.timer.after(tasks, TOILET_FUN_RUN_MS, ACTION_TOILET_FUN_OFF, now);
            } else {
                self.fun.switch(false, io);
            }
            self.lamp.switch(false, io);
            proof {
                assert(io.serial_out@ =~= serial0 + seq![self.fun.spec_cmd(), self.lamp.spec_cmd()]);
            }
        }
        self.switch.update_time(now);
    }
}

/// Every room of the flat, each with its devices.
pub struct Home {
    pub bad_room: BadRoom,
    pub living_room: LivingRoom,
    pub kitchen: Kitchen,
    pub balcony: Balcony,
    pub corridor: Corridor,
    pub toilet: Toilet,
    pub bathroom: Bathroom,
}

impl Home {
    pub open spec fn wf(self) -> bool {
        &&& self.kitchen.wf()
        &&& self.corridor.wf()
        &&& self.toilet.wf()
        &&& self.bathroom.wf()
    }

    pub open spec fn is_initial(self) -> bool {
        &&& self.bad_room.is_initial()
        &&& self.living_room.is_initial()
        &&& self.kitchen.is_initial()
        &&& self.balcony.is_initial()
        &&& self.corridor.is_initial()
        &&& self.toilet.is_initial()
        &&& self.bathroom.is_initial()
    }

    pub fn new() -> (h: Home)
        ensures
            h.is_initial(),
            h.wf(),
    {
        Home {
            bad_room: BadRoom::new(),
            living_room: LivingRoom::new(),
            kitchen: Kitchen::new(),
            balcony: Balcony::new(),
            corridor: Corridor::new(),
            toilet: Toilet::new(),
            bathroom: Bathroom::new(),
        }
    }
}

/// Runs one fired task's action against the home's devices. Unknown action
/// identifiers change nothing; the scheduler guarantees invocation, not
/// that every identifier means something.
pub fn run_action(home: &mut Home, io: &mut IO, action: ActionId)
    requires
        old(home).wf(),
    ensures
        final(home).wf(),
        action == ACTION_TOILET_FUN_OFF ==> {
            &&& final(home).toilet.fun == (SerialSwitch { is_on: false, ..old(home).toilet.fun })
            &&& *final(home) == (Home {
                toilet: (Toilet { fun: final(home).toilet.fun, ..old(home).toilet }),
                ..*old(home)
            })
            &&& final(io).serial_out@ == old(io).serial_out@.push(
                final(home).toilet.fun.spec_cmd(),
            )
            &&& final(io).web_out@ == old(io).web_out@
        },
        action == ACTION_UPDATE_WEB_DEVICES ==> {
            &&& *final(home) == *old(home)
            &&& final(io).serial_out@ == old(io).serial_out@
            &&& final(io).web_out@.len() == old(io).web_out@.len() + 3
        },
        action != ACTION_TOILET_FUN_OFF && action != ACTION_UPDATE_WEB_DEVICES ==> *final(home)
            == *old(home) && final(io).serial_out@ == old(io).serial_out@ && final(io).web_out@
            == old(io).web_out@,
{
    if action == ACTION_TOILET_FUN_OFF {
        home.toilet.fun.switch(false, io);
    } else if action == ACTION_UPDATE_WEB_DEVICES {
        update_web_devices(home, io);
    }
}

/// The periodic refresh of remote device state: every beam writes its
/// believed state out again, so a rebooted web device catches up.
pub fn update_web_devices(home: &Home, io: &mut IO)
    ensures
        final(io).serial_out@ == old(io).serial_out@,
        final(io).web_out@.len() == old(io).web_out@.len() + 3,
        final(io).web_out@[old(io).web_out@.len() as int].id@ == home.corridor.beam.id@,
        final(io).web_out@[old(io).web_out@.len() as int].spec_args() == seq![
            home.corridor.beam.channel_1.spec_args(),
            home.corridor.beam.channel_2.spec_args(),
        ],
        final(io).web_out@[old(io).web_out@.len() as int + 1].id@ == home.kitchen.beam.id@,
        final(io).web_out@[old(io).web_out@.len() as int + 1].spec_args() == seq![
            home.kitchen.beam.channel_1.spec_args(),
            home.kitchen.beam.channel_2.spec_args(),
        ],
        final(io).web_out@[old(io).web_out@.len() as int + 2].id@ == home.living_room.beam.id@,
        final(io).web_out@[old(io).web_out@.len() as int + 2].spec_args() == seq![
            home.living_room.beam.channel_1.spec_args(),
            home.living_room.beam.channel_2.spec_args(),
        ],
{
    home.corridor.beam.flush(io);
    home.kitchen.beam.flush(io);
    home.living_room.beam.flush(io);
}

/// Reconfigures both channels of every beam in the flat; nothing goes out
/// until the beams are flushed or switched.
pub fn all_beam(home: &mut Home, spot: Option<bool>, led: Option<LedState>)
    ensures
        *final(home) == (Home {
            living_room: (LivingRoom {
                beam: (WebBeam {
                    channel_1: spec_set_state(old(home).living_room.beam.channel_1, spot, led),
                    channel_2: spec_set_state(old(home).living_room.beam.channel_2, spot, led),
                    ..old(home).living_room.beam
                }),
                ..old(home).living_room
            }),
            corridor: (Corridor {
                beam: (WebBeam {
                    channel_1: spec_set_state(old(home).corridor.beam.channel_1, spot, led),
                    channel_2: spec_set_state(old(home).corridor.beam.channel_2, spot, led),
                    ..old(home).corridor.beam
                }),
                ..old(home).corridor
            }),
            kitchen: (Kitchen {
                beam: (WebBeam {
                    channel_1: spec_set_state(old(home).kitchen.beam.channel_1, spot, led),
                    channel_2: spec_set_state(old(home).kitchen.beam.channel_2, spot, led),
                    ..old(home).kitchen.beam
                }),
                ..old(home).kitchen
            }),
            ..*old(home)
        }),
{
    home.living_room.beam.channel_1(spot, led);
    home.living_room.beam.channel_2(spot, led);
    home.corridor.beam.channel_1(spot, led);
    home.corridor.beam.channel_2(spot, led);
    home.kitchen.beam.channel_1(spot, led);
    home.kitchen.beam.channel_2(spot, led);
}

/// The default scene: every beam channel gets its spot and the default
/// rainbow led mode, the corridor motion automation comes back on, and each
/// beam that was lit is switched fully on again, which queues its state.
pub fn default_color_scheme(home: &mut Home, io: &mut IO)
    requires
        old(home).wf(),
    ensures
        final(home).wf(),
        final(home).corridor.ir_enabled,
        final(home).bad_room == old(home).bad_room,
        final(home).balcony == old(home).balcony,
        final(home).toilet == old(home).toilet,
        final(home).bathroom == old(home).bathroom,
        final(io).serial_out@ == old(io).serial_out@,
        ({
            let led = LedState { is_on: true, mode: LedMode::Rainbow((100, 100)) };
            let lr_on = old(home).living_room.beam.spec_is_on();
            let co_on = old(home).corridor.beam.spec_is_on();
            let ki_on = old(home).kitchen.beam.spec_is_on();
            let base = old(io).web_out@.len() as int;
            &&& final(home).living_room.beam.channel_1 == (BeamState {
                is_on: lr_on,
                led_state: led,
                is_spot_on: true,
            })
            &&& final(home).living_room.beam.channel_2 == final(home).living_room.beam.channel_1
            &&& final(home).corridor.beam.channel_1 == (BeamState {
                is_on: co_on,
                led_state: led,
                is_spot_on: true,
            })
            &&& final(home).corridor.beam.channel_2 == final(home).corridor.beam.channel_1
            &&& final(home).kitchen.beam.channel_1 == (BeamState {
                is_on: ki_on,
                led_state: led,
                is_spot_on: true,
            })
            &&& final(home).kitchen.beam.channel_2 == final(home).kitchen.beam.channel_1
            &&& final(io).web_out@.len() == base + (if lr_on { 1int } else { 0 }) + (if co_on {
                1int
            } else {
                0
            }) + (if ki_on { 1int } else { 0 })
            &&& (lr_on ==> final(io).web_out@[base].id@ == old(home).living_room.beam.id@
                && final(io).web_out@[base].spec_args() == seq![
                    final(home).living_room.beam.channel_1.spec_args(),
                    final(home).living_room.beam.channel_2.spec_args(),
                ])
            &&& (co_on ==> final(io).web_out@[base + (if lr_on { 1int } else { 0 })].id@
                == old(home).corridor.beam.id@ && final(io).web_out@[base + (if lr_on {
                1int
            } else {
                0
            })].spec_args() == seq![
                final(home).corridor.beam.channel_1.spec_args(),
                final(home).corridor.beam.channel_2.spec_args(),
            ])
            &&& (ki_on ==> final(io).web_out@[base + (if lr_on { 1int } else { 0 }) + (if co_on {
                1int
            } else {
                0
            })].id@ == old(home).kitchen.beam.id@)
        }),
{
    all_beam(home, Some(true), Some(LedState::default()));
    home.corridor.enable_ir();
    if home.living_room.beam.is_on() {
        home.living_room.beam.switch(true, io);
    }
    if home.corridor.beam.is_on() {
        home.corridor.beam.switch(true, io);
    }
    if home.kitchen.beam.is_on() {
        home.kitchen.beam.switch(true, io);
    }
}

/// Switches every lamp, fan, and beam in the flat off, in the fixed order
/// the exit switch uses, and queues exactly one command or request per
/// device.
pub fn switch_off_all(home: &mut Home, io: &mut IO)
    requires
        old(home).wf(),
    ensures
        final(home).wf(),
        !final(home).corridor.beam.spec_is_on(),
        !final(home).bad_room.chandelier.is_on,
        !final(home).bathroom.lamp.is_on,
        !final(home).bathroom.fun.is_on,
        !final(home).toilet.fun.is_on,
        !final(home).toilet.lamp.is_on,
        !final(home).kitchen.beam.spec_is_on(),
        !final(home).kitchen.kitchen_lamp.is_on,
        !final(home).balcony.lamp.is_on,
        !final(home).living_room.chandelier.is_on,
        !final(home).living_room.beam.spec_is_on(),
        !final(home).living_room.cupboard_lamp.is_on,
        final(io).serial_out@ == old(io).serial_out@ + seq![
            final(home).bad_room.chandelier.spec_cmd(),
            final(home).bathroom.lamp.spec_cmd(),
            final(home).bathroom.fun.spec_cmd(),
            final(home).toilet.fun.spec_cmd(),
            final(home).toilet.lamp.spec_cmd(),
            final(home).kitchen.kitchen_lamp.spec_cmd(),
            final(home).balcony.lamp.spec_cmd(),
            final(home).living_room.chandelier.spec_cmd(),
            final(home).living_room.cupboard_lamp.spec_cmd(),
        ],
        final(io).web_out@.len() == old(io).web_out@.len() + 3,
        final(io).web_out@[old(io).web_out@.len() as int].id@
            == final(home).corridor.beam.id@,
        final(io).web_out@[old(io).web_out@.len() as int].spec_args() == seq![
            final(home).corridor.beam.channel_1.spec_args(),
            final(home).corridor.beam.channel_2.spec_args(),
        ],
        final(io).web_out@[old(io).web_out@.len() as int + 1].id@ == final(home).kitchen.beam.id@,
        final(io).web_out@[old(io).web_out@.len() as int + 1].spec_args() == seq![
            final(home).kitchen.beam.channel_1.spec_args(),
            final(home).kitchen.beam.channel_2.spec_args(),
        ],
        final(io).web_out@[old(io).web_out@.len() as int + 2].id@ == final(home).living_room.beam.id@,
        final(io).web_out@[old(io).web_out@.len() as int + 2].spec_args() == seq![
            final(home).living_room.beam.channel_1.spec_args(),
            final(home).living_room.beam.channel_2.spec_args(),
        ],
{
    let ghost serial0 = io.serial_out@;
    let ghost web0 = io.web_out@;
    home.corridor.beam.switch(false, io);
    home.bad_room.chandelier.switch(false, io);
    home.bathroom.lamp.switch(false, io);
    home.bathroom.fun.switch(false, io);
    home.toilet.fun.switch(false, io);
    home.toilet.lamp.switch(false, io);
    home.kitchen.beam.switch(false, io);
    home.kitchen.kitchen_lamp.switch(false, io);
    home.balcony.lamp.switch(false, io);
    home.living_room.chandelier.switch(false, io);
    home.living_room.beam.switch(false, io);
    home.living_room.cupboard_lamp.switch(false, io);
    proof {
        assert(io.serial_out@ =~= serial0 + seq![
            home.bad_room.chandelier.spec_cmd(),
            home.bathroom.lamp.spec_cmd(),
            home.bathroom.fun.spec_cmd(),
            home.toilet.fun.spec_cmd(),
            home.toilet.lamp.spec_cmd(),
            home.kitchen.kitchen_lamp.spec_cmd(),
            home.balcony.lamp.spec_cmd(),
            home.living_room.chandelier.spec_cmd(),
            home.living_room.cupboard_lamp.spec_cmd(),
        ]);
        assert(io.web_out@.len() == web0.len() + 3);
    }
}

} // verus!
