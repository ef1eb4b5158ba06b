//! Devices on the byte-oriented serial bus: plain switches and dimmers.
//! Each flush computes the exact three-byte command the bus receives.

use crate::devices::web::SpotState;
use crate::devices::{invert_and_map, spec_invert_and_map, spec_map, Device, DeviceType, Flush, Switch};
use crate::io::{Cmd, IO};
use vstd::prelude::*;

verus! {

/// An on/off device on the serial bus.
pub struct SerialSwitch {
    pub id: String,
    pub p_id: u8,
    pub is_on: bool,
}

impl SerialSwitch {
    pub fn new(id: &str, p_id: u8) -> (d: SerialSwitch)
        ensures
            d.id@ == id@,
            d.p_id == p_id,
            !d.is_on,
    {
        SerialSwitch { id: id.to_owned(), p_id, is_on: false }
    }

    /// The command a flush puts on the bus: command type 2, the device's
    /// bus id, and 1 for on or 2 for off.
    pub open spec fn spec_cmd(self) -> Cmd {
        Cmd { _type: 0x02, id: self.p_id, args: if self.is_on { 0x01 } else { 0x02 } }
    }
}

impl Switch for SerialSwitch {
    open spec fn spec_is_on(&self) -> bool {
        self.is_on
    }

    open spec fn switch_inv(&self) -> bool {
        true
    }

    fn is_on(&self) -> (r: bool) {
        self.is_on
    }

    fn switch(&mut self, is_on: bool, io: &mut IO)
        ensures
            *final(self) == (SerialSwitch { is_on, ..*old(self) }),
            final(io).serial_out@ == old(io).serial_out@.push(final(self).spec_cmd()),
            final(io).web_out@ == old(io).web_out@,
    {
        self.is_on = is_on;
        self.flush(io);
    }
}

impl Flush for SerialSwitch {
    open spec fn inv(&self) -> bool {
        true
    }

    fn flush(&self, io: &mut IO)
        ensures
            final(io).serial_out@ == old(io).serial_out@.push(self.spec_cmd()),
            final(io).web_out@ == old(io).web_out@,
    {
        let arg: u8 = if self.is_on { 0x01 } else { 0x02 };
        io.serial_write(Cmd::new(0x02, self.p_id, arg));
    }
}

impl Device for SerialSwitch {
    open spec fn spec_id(&self) -> Seq<char> {
        self.id@
    }

    fn id(&self) -> (r: &str) {
        self.id.as_str()
    }

    fn dev_type(&self) -> DeviceType {
        DeviceType::SerialSwitch
    }
}

/// A dimmable lamp on the serial bus. Brightness is a percentage; the
/// usable hardware band is `min_value..=max_value`.
pub struct SerialDimmer {
    pub id: String,
    pub p_id: u8,
    pub min_value: u8,
    pub max_value: u8,
    pub is_on: bool,
    pub brightness: u8,
}

impl SerialDimmer {
    /// Percentages stay in 0..=100 and the hardware band lies inside it.
    pub open spec fn wf(self) -> bool {
        &&& self.min_value <= self.max_value
        &&& self.max_value <= 100
        &&& self.brightness <= 100
    }

    pub fn new(id: &str, p_id: u8, min_value: u8, max_value: u8) -> (d: SerialDimmer)
        requires
            min_value <= max_value,
            max_value <= 100,
        ensures
            d.id@ == id@,
            d.p_id == p_id,
            d.min_value == min_value,
            d.max_value == max_value,
            !d.is_on,
            d.brightness == 100,
            d.wf(),
    {
        SerialDimmer { id: id.to_owned(), p_id, min_value, max_value, is_on: false, brightness: 100 }
    }

    /// The argument byte a flush sends: the brightness percentage mapped
    /// into the hardware band and inverted, or 255 (off).
    pub open spec fn spec_arg(self) -> int {
        if self.is_on {
            spec_invert_and_map(
                spec_map(
                    self.brightness as int,
                    0,
                    100,
                    self.min_value as int,
                    self.max_value as int,
                ) as u8,
            )
        } else {
            255
        }
    }

    /// The command a flush puts on the bus.
    pub open spec fn spec_cmd(self) -> Cmd {
        Cmd { _type: 0x01, id: self.p_id, args: self.spec_arg() as u8 }
    }

    /// Sets the brightness percentage; the new level reaches the hardware
    /// on the next flush.
    pub fn set_power(&mut self, power: u8)
        requires
            power <= 100,
        ensures
            *final(self) == (SerialDimmer { brightness: power, ..*old(self) }),
    {
        self.brightness = power;
    }
}

impl Switch for SerialDimmer {
    open spec fn spec_is_on(&self) -> bool {
        self.is_on
    }

    open spec fn switch_inv(&self) -> bool {
        self.wf()
    }

    fn is_on(&self) -> (r: bool) {
        self.is_on
    }

    fn switch(&mut self, is_on: bool, io: &mut IO)
        ensures
            *final(self) == (SerialDimmer { is_on, ..*old(self) }),
            final(io).serial_out@ == old(io).serial_out@.push(final(self).spec_cmd()),
            final(io).web_out@ == old(io).web_out@,
    {
        self.is_on = is_on;
        self.flush(io);
    }
}

impl Flush for SerialDimmer {
    open spec fn inv(&self) -> bool {
        self.wf()
    }

    fn flush(&self, io: &mut IO)
        ensures
            final(io).serial_out@ == old(io).serial_out@.push(self.spec_cmd()),
            final(io).web_out@ == old(io).web_out@,
    {
        proof {
            assert(<SerialDimmer as Flush>::inv(self));
            assert(self.wf());
        }
        let arg: u8 = if self.is_on {
            proof {
                let banded = spec_map(
                    self.brightness as int,
                    0,
                    100,
                    self.min_value as int,
                    self.max_value as int,
                );
                assert((self.brightness as int) * (self.max_value - self.min_value) / 100
                    <= self.max_value - self.min_value) by (nonlinear_arith)
                    requires
                        0 <= self.brightness <= 100,
                        0 <= self.max_value - self.min_value,
                ;
                assert(0 <= banded <= 100);
            }
            invert_and_map(crate::devices::map(
                self.brightness as u32,
                0,
                100,
                self.min_value as u32,
                self.max_value as u32,
            ) as u8)
        } else {
            255
        };
        io.serial_write(Cmd::new(0x01, self.p_id, arg));
    }
}

impl Device for SerialDimmer {
    open spec fn spec_id(&self) -> Seq<char> {
        self.id@
    }

    fn id(&self) -> (r: &str) {
        self.id.as_str()
    }

    fn dev_type(&self) -> DeviceType {
        DeviceType::SerialDimmer
    }
}

/// The brightness values a fade passes through: from `from` toward `to` in
/// steps of two percent, ending exactly at `to`.
pub open spec fn spec_fade_path(from: u8, to: u8) -> Seq<u8>
    decreases (if from < to {
        to - from
    } else {
        from - to
    }),
{
    if from == to {
        seq![to]
    } else if from < to {
        seq![from] + spec_fade_path(
            if to - from <= 2 {
                to
            } else {
                (from + 2) as u8
            },
            to,
        )
    } else {
        seq![from] + spec_fade_path(
            if from - to <= 2 {
                to
            } else {
                (from - 2) as u8
            },
            to,
        )
    }
}

/// The command one fade step puts on the bus: the step's brightness mapped
/// into the hardware band and inverted, or 255 while the lamp is off.
pub open spec fn spec_fade_cmd(
    is_on: bool,
    p_id: u8,
    min_value: u8,
    max_value: u8,
    level: u8,
) -> Cmd {
    Cmd {
        _type: 0x01,
        id: p_id,
        args: if is_on {
            spec_invert_and_map(
                spec_map(level as int, 0, 100, min_value as int, max_value as int) as u8,
            ) as u8
        } else {
            255
        },
    }
}

/// Every command of a whole fade, in the order the bus receives them.
pub open spec fn spec_fade_cmds(
    is_on: bool,
    p_id: u8,
    min_value: u8,
    max_value: u8,
    from: u8,
    to: u8,
) -> Seq<Cmd> {
    spec_fade_path(from, to).map_values(
        |level: u8| spec_fade_cmd(is_on, p_id, min_value, max_value, level),
    )
}

/// Walks a dimmer smoothly from its previous brightness to the current one,
/// two percent at a time, queueing one bus command per step; the embedding
/// program paces the steps on the wire. Ends with `old_brightness` caught
/// up to `brightness`.
pub fn fade(state: &mut SpotState, p_id: u8, min_value: u8, max_value: u8, io: &mut IO)
    requires
        old(state).brightness <= 100,
        old(state).old_brightness <= 100,
        min_value <= max_value,
        max_value <= 100,
    ensures
        *final(state) == (SpotState { old_brightness: old(state).brightness, ..*old(state) }),
        final(io).serial_out@ == old(io).serial_out@ + spec_fade_cmds(
            old(state).is_on,
            p_id,
            min_value,
            max_value,
            old(state).old_brightness,
            old(state).brightness,
        ),
        final(io).web_out@ == old(io).web_out@,
{
    let ghost serial0 = io.serial_out@;
    let ghost full = spec_fade_cmds(
        state.is_on,
        p_id,
        min_value,
        max_value,
        state.old_brightness,
        state.brightness,
    );
    while state.old_brightness != state.brightness
        invariant
            state.brightness == old(state).brightness,
            state.is_on == old(state).is_on,
            state.old_brightness <= 100,
            state.brightness <= 100,
            min_value <= max_value <= 100,
            serial0 + full == io.serial_out@ + spec_fade_cmds(
                state.is_on,
                p_id,
                min_value,
                max_value,
                state.old_brightness,
                state.brightness,
            ),
            io.web_out@ == old(io).web_out@,
        decreases (if state.old_brightness < state.brightness {
            state.brightness - state.old_brightness
        } else {
            state.old_brightness - state.brightness
        }),
    {
        let ghost cur = state.old_brightness;
        let step_cmd = fade_step_cmd(state.is_on, p_id, min_value, max_value, state.old_brightness);
        io.serial_write(step_cmd);
        if state.old_brightness < state.brightness {
            if state.brightness - state.old_brightness <= 2 {
                state.old_brightness = state.brightness;
            } else {
                state.old_brightness = state.old_brightness + 2;
            }
        } else {
            if state.old_brightness - state.brightness <= 2 {
                state.old_brightness = state.brightness;
            } else {
                state.old_brightness = state.old_brightness - 2;
            }
        }
        proof {
            assert(spec_fade_path(cur, state.brightness) =~= seq![cur] + spec_fade_path(
                state.old_brightness,
                state.brightness,
            ));
            assert(serial0 + full =~= io.serial_out@ + spec_fade_cmds(
                state.is_on,
                p_id,
                min_value,
                max_value,
                state.old_brightness,
                state.brightness,
            ));
        }
    }
    let last_cmd = fade_step_cmd(state.is_on, p_id, min_value, max_value, state.brightness);
    io.serial_write(last_cmd);
    proof {
        assert(spec_fade_path(state.old_brightness, state.brightness) =~= seq![state.brightness]);
        assert(io.serial_out@ =~= serial0 + full);
    }
}

/// One fade step's command, as the bus receives it.
fn fade_step_cmd(is_on: bool, p_id: u8, min_value: u8, max_value: u8, level: u8) -> (c: Cmd)
    requires
        level <= 100,
        min_value <= max_value,
        max_value <= 100,
    ensures
        c == spec_fade_cmd(is_on, p_id, min_value, max_value, level),
{
    let arg: u8 = if is_on {
        proof {
            assert((level as int) * (max_value - min_value) / 100 <= max_value - min_value)
                by (nonlinear_arith)
                requires
                    0 <= level <= 100,
                    0 <= max_value - min_value,
            ;
        }
        invert_and_map(crate::devices::map(
            level as u32,
            0,
            100,
            min_value as u32,
            max_value as u32,
        ) as u8)
    } else {
        255
    };
    Cmd::new(0x01, p_id, arg)
}

} // verus!
