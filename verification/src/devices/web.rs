//! Devices addressed over HTTP: switches, dimmers, led strips, and the
//! two-channel led beams. Each flush computes the exact argument strings
//! the device's endpoint receives.

use crate::devices::{Device, DeviceType, Flush, Switch};
use crate::io::IO;
use crate::text::{append_switch_word, append_u8_dec, spec_u8_dec, switch_word};
use vstd::prelude::*;
use vstd::string::StringExecFns;

verus! {

pub type Color = (u8, u8, u8);

pub type SpeedAndBrightness = (u8, u8);

/// The parameters of the "noise" animation a led strip can run.
#[derive(Clone, Copy)]
pub struct Noise {
    pub hue_start: u8,
    pub hue_gap: u8,
    pub noise_step: u8,
    pub min_bright: u8,
    pub max_bright: u8,
    pub min_sat: u8,
    pub max_sat: u8,
    pub delay: u8,
}

impl Default for Noise {
    fn default() -> (n: Noise)
        ensures
            n == (Noise {
                hue_start: 0,
                hue_gap: 21,
                noise_step: 15,
                min_bright: 150,
                max_bright: 255,
                min_sat: 245,
                max_sat: 255,
                delay: 40,
            }),
    {
        Noise {
            hue_start: 0,
            hue_gap: 21,
            noise_step: 15,
            min_bright: 150,
            max_bright: 255,
            min_sat: 245,
            max_sat: 255,
            delay: 40,
        }
    }
}

/// What a led strip shows: one color, or an animation with its speed and
/// brightness, or the noise animation.
#[derive(Clone, Copy)]
pub enum LedMode {
    Color(Color),
    Rainbow(SpeedAndBrightness),
    Borealis(SpeedAndBrightness),
    Noise(Noise),
}

impl LedMode {
    /// The argument text for this mode, e.g. "color:255:0:0".
    pub open spec fn spec_arg(self) -> Seq<char> {
        match self {
            LedMode::Color(c) => "color:"@ + spec_u8_dec(c.0) + ":"@ + spec_u8_dec(c.1) + ":"@
                + spec_u8_dec(c.2),
            LedMode::Rainbow(sp) => "rainbow:"@ + spec_u8_dec(sp.0) + ":"@ + spec_u8_dec(sp.1),
            LedMode::Borealis(sp) => "borealis:"@ + spec_u8_dec(sp.0) + ":"@ + spec_u8_dec(sp.1),
            LedMode::Noise(n) => "noise:"@ + spec_u8_dec(n.hue_start) + ":"@ + spec_u8_dec(n.hue_gap)
                + ":"@ + spec_u8_dec(n.noise_step) + ":"@ + spec_u8_dec(n.min_bright) + ":"@
                + spec_u8_dec(n.max_bright) + ":"@ + spec_u8_dec(n.min_sat) + ":"@
                + spec_u8_dec(n.max_sat) + ":"@ + spec_u8_dec(n.delay),
        }
    }

    pub fn arg(&self) -> (r: String)
        ensures
            r@ == self.spec_arg(),
    {
        match self {
            LedMode::Color((red, green, blue)) => {
                let mut s = "color:".to_owned();
                append_u8_dec(&mut s, *red);
                s.append(":");
                append_u8_dec(&mut s, *green);
                s.append(":");
                append_u8_dec(&mut s, *blue);
                proof {
                    assert(s@ =~= self.spec_arg());
                }
                s
            },
            LedMode::Rainbow((speed, power)) => {
                let mut s = "rainbow:".to_owned();
                append_u8_dec(&mut s, *speed);
                s.append(":");
                append_u8_dec(&mut s, *power);
                proof {
                    assert(s@ =~= self.spec_arg());
                }
                s
            },
            LedMode::Borealis((speed, power)) => {
                let mut s = "borealis:".to_owned();
                append_u8_dec(&mut s, *speed);
                s.append(":");
                append_u8_dec(&mut s, *power);
                proof {
                    assert(s@ =~= self.spec_arg());
                }
                s
            },
            LedMode::Noise(n) => {
                let mut s = "noise:".to_owned();
                append_u8_dec(&mut s, n.hue_start);
                s.append(":");
                append_u8_dec(&mut s, n.hue_gap);
                s.append(":");
                append_u8_dec(&mut s, n.noise_step);
                s.append(":");
                append_u8_dec(&mut s, n.min_bright);
                s.append(":");
                append_u8_dec(&mut s, n.max_bright);
                s.append(":");
                append_u8_dec(&mut s, n.min_sat);
                s.append(":");
                append_u8_dec(&mut s, n.max_sat);
                s.append(":");
                append_u8_dec(&mut s, n.delay);
                proof {
                    assert(s@ =~= self.spec_arg());
                }
                s
            },
        }
    }
}

/// Whether a led strip is lit and what it shows.
#[derive(Clone, Copy)]
pub struct LedState {
    pub is_on: bool,
    pub mode: LedMode,
}

impl Default for LedState {
    fn default() -> (s: LedState)
        ensures
            s.is_on,
            s.mode == LedMode::Rainbow((100, 100)),
    {
        LedState { is_on: true, mode: LedMode::Rainbow((100, 100)) }
    }
}

/// One channel of a beam: a spot lamp and a led strip, plus the channel's
/// own on/off state that gates both.
#[derive(Clone, Copy)]
pub struct BeamState {
    pub is_on: bool,
    pub led_state: LedState,
    pub is_spot_on: bool,
}

/// What `set_state` leaves in a channel: each given part replaces the old
/// one, each absent part is kept.
pub open spec fn spec_set_state(b: BeamState, spot: Option<bool>, led: Option<LedState>) -> BeamState {
    BeamState {
        is_on: b.is_on,
        is_spot_on: match spot {
            Some(v) => v,
            None => b.is_spot_on,
        },
        led_state: match led {
            Some(v) => v,
            None => b.led_state,
        },
    }
}

impl BeamState {
    pub fn set_state(&mut self, spot: Option<bool>, led: Option<LedState>)
        ensures
            *final(self) == spec_set_state(*old(self), spot, led),
    {
        if let Some(spot) = spot {
            self.is_spot_on = spot;
        }
        if let Some(led) = led {
            self.led_state = led;
        }
    }

    /// The channel's argument text: spot word, led word, led mode.
    pub open spec fn spec_args(self) -> Seq<char> {
        switch_word(self.is_on && self.is_spot_on) + ":"@ + switch_word(
            self.is_on && self.led_state.is_on,
        ) + ":"@ + self.led_state.mode.spec_arg()
    }

    pub fn args(&self) -> (r: String)
        ensures
            r@ == self.spec_args(),
    {
        let mut s = String::new();
        append_switch_word(&mut s, self.is_on && self.is_spot_on);
        s.append(":");
        append_switch_word(&mut s, self.is_on && self.led_state.is_on);
        s.append(":");
        let mode = self.led_state.mode.arg();
        s.append(mode.as_str());
        proof {
            assert(s@ =~= self.spec_args());
        }
        s
    }
}

/// A two-channel beam behind a web endpoint: each channel drives a spot
/// lamp and a led strip.
pub struct WebBeam {
    pub id: String,
    pub channel_1: BeamState,
    pub channel_2: BeamState,
}

impl WebBeam {
    pub fn new(id: &str) -> (d: WebBeam)
        ensures
            d.id@ == id@,
            d.channel_1 == (BeamState {
                is_on: false,
                led_state: LedState { is_on: true, mode: LedMode::Rainbow((100, 100)) },
                is_spot_on: true,
            }),
            d.channel_2 == d.channel_1,
    {
        WebBeam {
            id: id.to_owned(),
            channel_1: BeamState { is_on: false, led_state: LedState::default(), is_spot_on: true },
            channel_2: BeamState { is_on: false, led_state: LedState::default(), is_spot_on: true },
        }
    }

    /// Reconfigures the first channel; nothing goes out until a flush.
    pub fn channel_1(&mut self, spot: Option<bool>, led: Option<LedState>)
        ensures
            *final(self) == (WebBeam {
                channel_1: spec_set_state(old(self).channel_1, spot, led),
                ..*old(self)
            }),
    {
        self.channel_1.set_state(spot, led);
    }

    /// Reconfigures the second channel; nothing goes out until a flush.
    pub fn channel_2(&mut self, spot: Option<bool>, led: Option<LedState>)
        ensures
            *final(self) == (WebBeam {
                channel_2: spec_set_state(old(self).channel_2, spot, led),
                ..*old(self)
            }),
    {
        self.channel_2.set_state(spot, led);
    }
}

impl Flush for WebBeam {
    open spec fn inv(&self) -> bool {
        true
    }

    /// Queues both channels' state for the endpoint, as two arguments.
    fn flush(&self, io: &mut IO)
        ensures
            final(io).web_out@.len() == old(io).web_out@.len() + 1,
            final(io).web_out@.last().id@ == self.id@,
            final(io).web_out@.last().spec_args() == seq![
                self.channel_1.spec_args(),
                self.channel_2.spec_args(),
            ],
            final(io).web_out@.drop_last() == old(io).web_out@,
            final(io).serial_out@ == old(io).serial_out@,
    {
        let args = vec![self.channel_1.args(), self.channel_2.args()];
        proof {
            assert(args@.map_values(|s: String| s@) =~= seq![
                self.channel_1.spec_args(),
                self.channel_2.spec_args(),
            ]);
        }
        io.send(self.id.as_str(), args);
    }
}

impl Switch for WebBeam {
    open spec fn spec_is_on(&self) -> bool {
        self.channel_1.is_on || self.channel_2.is_on
    }

    open spec fn switch_inv(&self) -> bool {
        true
    }

    fn is_on(&self) -> (r: bool) {
        self.channel_1.is_on || self.channel_2.is_on
    }

    /// Turns both channels on or off and queues the new state.
    fn switch(&mut self, is_on: bool, io: &mut IO)
        ensures
            *final(self) == (WebBeam {
                channel_1: (BeamState { is_on, ..old(self).channel_1 }),
                channel_2: (BeamState { is_on, ..old(self).channel_2 }),
                ..*old(self)
            }),
            final(io).web_out@.len() == old(io).web_out@.len() + 1,
            final(io).web_out@.last().id@ == old(self).id@,
            final(io).web_out@.last().spec_args() == seq![
                final(self).channel_1.spec_args(),
                final(self).channel_2.spec_args(),
            ],
            final(io).web_out@.drop_last() == old(io).web_out@,
            final(io).serial_out@ == old(io).serial_out@,
    {
        self.channel_1.is_on = is_on;
        self.channel_2.is_on = is_on;
        self.flush(io);
    }
}

impl Device for WebBeam {
    open spec fn spec_id(&self) -> Seq<char> {
        self.id@
    }

    fn id(&self) -> (r: &str) {
        self.id.as_str()
    }

    fn dev_type(&self) -> DeviceType {
        DeviceType::WebBeam
    }
}

/// The believed state of a dimmable web lamp.
#[derive(Clone, Copy)]
pub struct SpotState {
    pub is_on: bool,
    pub brightness: u8,
    pub old_brightness: u8,
}

impl SpotState {
    pub fn new() -> (s: SpotState)
        ensures
            s == (SpotState { is_on: false, brightness: 100, old_brightness: 0 }),
    {
        SpotState { is_on: false, brightness: 100, old_brightness: 0 }
    }
}

/// A dimmable lamp behind a web endpoint.
pub struct WebDimmer {
    pub id: String,
    pub state: SpotState,
}

impl WebDimmer {
    pub fn new(id: &str) -> (d: WebDimmer)
        ensures
            d.id@ == id@,
            d.state == (SpotState { is_on: false, brightness: 100, old_brightness: 0 }),
    {
        WebDimmer { id: id.to_owned(), state: SpotState::new() }
    }

    /// The argument text a flush sends, e.g. "ON:100".
    pub open spec fn spec_arg(self) -> Seq<char> {
        switch_word(self.state.is_on) + ":"@ + spec_u8_dec(self.state.brightness)
    }

    /// Queues the lamp's state for its endpoint, once per channel.
    pub fn flush(&self, io: &mut IO)
        ensures
            final(io).web_out@.len() == old(io).web_out@.len() + 1,
            final(io).web_out@.last().id@ == self.id@,
            final(io).web_out@.last().spec_args() == seq![self.spec_arg(), self.spec_arg()],
            final(io).web_out@.drop_last() == old(io).web_out@,
            final(io).serial_out@ == old(io).serial_out@,
    {
        let mut arg = String::new();
        append_switch_word(&mut arg, self.state.is_on);
        arg.append(":");
        append_u8_dec(&mut arg, self.state.brightness);
        let args = vec![arg.clone(), arg];
        proof {
            assert(args@.map_values(|s: String| s@) =~= seq![self.spec_arg(), self.spec_arg()]);
        }
        io.send(self.id.as_str(), args);
    }
}

impl Switch for WebDimmer {
    open spec fn spec_is_on(&self) -> bool {
        self.state.is_on
    }

    open spec fn switch_inv(&self) -> bool {
        true
    }

    fn is_on(&self) -> (r: bool) {
        self.state.is_on
    }

    fn switch(&mut self, is_on: bool, io: &mut IO)
        ensures
            *final(self) == (WebDimmer {
                state: (SpotState { is_on, ..old(self).state }),
                ..*old(self)
            }),
            final(io).web_out@.len() == old(io).web_out@.len() + 1,
            final(io).web_out@.last().id@ == old(self).id@,
            final(io).web_out@.last().spec_args() == seq![
                final(self).spec_arg(),
                final(self).spec_arg(),
            ],
            final(io).web_out@.drop_last() == old(io).web_out@,
            final(io).serial_out@ == old(io).serial_out@,
    {
        self.state.is_on = is_on;
        self.flush(io);
    }
}

/// A led strip behind a web endpoint.
pub struct WebLed {
    pub id: String,
    pub state: LedState,
}

impl WebLed {
    pub fn new(id: &str) -> (d: WebLed)
        ensures
            d.id@ == id@,
            d.state == (LedState { is_on: false, mode: LedMode::Rainbow((100, 100)) }),
    {
        WebLed {
            id: id.to_owned(),
            state: LedState { is_on: false, mode: LedMode::Rainbow((100, 100)) },
        }
    }

    /// The argument text a flush sends, e.g. "ON:rainbow:100:100".
    pub open spec fn spec_arg(self) -> Seq<char> {
        switch_word(self.state.is_on) + ":"@ + self.state.mode.spec_arg()
    }

    /// Queues the strip's state for its endpoint, once per channel.
    pub fn flush(&self, io: &mut IO)
        ensures
            final(io).web_out@.len() == old(io).web_out@.len() + 1,
            final(io).web_out@.last().id@ == self.id@,
            final(io).web_out@.last().spec_args() == seq![self.spec_arg(), self.spec_arg()],
            final(io).web_out@.drop_last() == old(io).web_out@,
            final(io).serial_out@ == old(io).serial_out@,
    {
        let mut arg = String::new();
        append_switch_word(&mut arg, self.state.is_on);
        arg.append(":");
        let mode = self.state.mode.arg();
        arg.append(mode.as_str());
        let args = vec![arg.clone(), arg];
        proof {
            assert(args@.map_values(|s: String| s@) =~= seq![self.spec_arg(), self.spec_arg()]);
        }
        io.send(self.id.as_str(), args);
    }
}

impl Switch for WebLed {
    open spec fn spec_is_on(&self) -> bool {
        self.state.is_on
    }

    open spec fn switch_inv(&self) -> bool {
        true
    }

    fn is_on(&self) -> (r: bool) {
        self.state.is_on
    }

    fn switch(&mut self, is_on: bool, io: &mut IO)
        ensures
            *final(self) == (WebLed {
                state: (LedState { is_on, ..old(self).state }),
                ..*old(self)
            }),
            final(io).web_out@.len() == old(io).web_out@.len() + 1,
            final(io).web_out@.last().id@ == old(self).id@,
            final(io).web_out@.last().spec_args() == seq![
                final(self).spec_arg(),
                final(self).spec_arg(),
            ],
            final(io).web_out@.drop_last() == old(io).web_out@,
            final(io).serial_out@ == old(io).serial_out@,
    {
        self.state.is_on = is_on;
        self.flush(io);
    }
}

/// An on/off device behind a web endpoint.
pub struct WebSwitch {
    pub id: String,
    pub is_on: bool,
}

impl WebSwitch {
    pub fn new(id: &str) -> (d: WebSwitch)
        ensures
            d.id@ == id@,
            !d.is_on,
    {
        WebSwitch { id: id.to_owned(), is_on: false }
    }

    /// The single argument a flush sends: "ON:100" or "OFF:100".
    pub open spec fn spec_arg(self) -> Seq<char> {
        switch_word(self.is_on) + ":100"@
    }

    /// Queues the switch's state for its endpoint.
    pub fn flush(&self, io: &mut IO)
        ensures
            final(io).web_out@.len() == old(io).web_out@.len() + 1,
            final(io).web_out@.last().id@ == self.id@,
            final(io).web_out@.last().spec_args() == seq![self.spec_arg()],
            final(io).web_out@.drop_last() == old(io).web_out@,
            final(io).serial_out@ == old(io).serial_out@,
    {
        let mut arg = if self.is_on { "ON".to_owned() } else { "OFF".to_owned() };
        arg.append(":100");
        let args = vec![arg];
        proof {
            assert(args@.map_values(|s: String| s@) =~= seq![self.spec_arg()]);
        }
        io.send(self.id.as_str(), args);
    }
}

impl Switch for WebSwitch {
    open spec fn spec_is_on(&self) -> bool {
        self.is_on
    }

    open spec fn switch_inv(&self) -> bool {
        true
    }

    fn is_on(&self) -> (r: bool) {
        self.is_on
    }

    fn switch(&mut self, is_on: bool, io: &mut IO)
        ensures
            *final(self) == (WebSwitch { is_on, ..*old(self) }),
            final(io).web_out@.len() == old(io).web_out@.len() + 1,
            final(io).web_out@.last().id@ == old(self).id@,
            final(io).web_out@.last().spec_args() == seq![final(self).spec_arg()],
            final(io).web_out@.drop_last() == old(io).web_out@,
            final(io).serial_out@ == old(io).serial_out@,
    {
        self.is_on = is_on;
        self.flush(io);
    }
}

impl Device for WebSwitch {
    open spec fn spec_id(&self) -> Seq<char> {
        self.id@
    }

    fn id(&self) -> (r: &str) {
        self.id.as_str()
    }

    fn dev_type(&self) -> DeviceType {
        DeviceType::WebSwitch
    }
}

} // verus!
