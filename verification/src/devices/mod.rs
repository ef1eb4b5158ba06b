//! Device models: the state each physical device is believed to be in, the
//! exact bytes and argument strings its drivers put on the wire, and the
//! brightness mapping the serial dimmers use.

pub mod serial;
pub mod web;

use crate::io::IO;
use vstd::prelude::*;

verus! {

/// A device that can write its believed state out to the wire.
pub trait Flush {
    /// What the device asks of its own state before it can flush.
    spec fn inv(&self) -> bool;

    fn flush(&self, io: &mut IO)
        requires
            self.inv(),
    ;
}

/// A device that is either on or off.
pub trait Switch {
    spec fn spec_is_on(&self) -> bool;

    /// What the device asks of its own state before it can be switched.
    spec fn switch_inv(&self) -> bool;

    fn is_on(&self) -> (r: bool)
        ensures
            r == self.spec_is_on(),
    ;

    fn switch(&mut self, is_on: bool, io: &mut IO)
        requires
            old(self).switch_inv(),
        ensures
            final(self).spec_is_on() == is_on,
            final(self).switch_inv(),
    ;

    fn toggle(&mut self, io: &mut IO)
        requires
            old(self).switch_inv(),
        ensures
            final(self).spec_is_on() == !old(self).spec_is_on(),
            final(self).switch_inv(),
    {
        let on = self.is_on();
        self.switch(!on, io);
    }
}

/// Anything that remembers when it was last touched.
pub trait LastUpdate {
    spec fn spec_last_update(&self) -> u128;

    fn last_update(&self) -> (r: u128)
        ensures
            r == self.spec_last_update(),
    ;
}

/// A named device of a known kind.
pub trait Device {
    spec fn spec_id(&self) -> Seq<char>;

    fn id(&self) -> (r: &str)
        ensures
            r@ == self.spec_id(),
    ;

    fn dev_type(&self) -> DeviceType;
}

#[derive(Clone, Copy, PartialEq, Eq, Structural, Debug)]
pub enum DeviceType {
    SerialSwitch,
    SerialDimmer,
    WebBeam,
    WebSwitch,
}

/// What the device layer reports when a lock or a guard cannot be taken.
pub enum ControllerError {
    GardError(String),
}

/// Remembers one instant and can be reset to a later one.
#[derive(Clone, Copy)]
pub struct Stopwatch {
    pub time: u128,
}

impl Stopwatch {
    pub fn new(now: u128) -> (s: Stopwatch)
        ensures
            s.time == now,
    {
        Stopwatch { time: now }
    }

    pub fn reset(&mut self, now: u128)
        ensures
            final(self).time == now,
    {
        self.time = now;
    }
}

impl LastUpdate for Stopwatch {
    open spec fn spec_last_update(&self) -> u128 {
        self.time
    }

    fn last_update(&self) -> (r: u128) {
        self.time
    }
}

/// Linear interpolation of `x` from the range `in_min..=in_max` onto the
/// range `out_min..=out_max`.
pub open spec fn spec_map(x: int, in_min: int, in_max: int, out_min: int, out_max: int) -> int {
    (x - in_min) * (out_max - out_min) / (in_max - in_min) + out_min
}

pub fn map(x: u32, in_min: u32, in_max: u32, out_min: u32, out_max: u32) -> (r: u32)
    requires
        in_min <= x,
        in_min < in_max,
        out_min <= out_max,
        (x - in_min) * (out_max - out_min) + out_min <= u32::MAX,
    ensures
        r == spec_map(x as int, in_min as int, in_max as int, out_min as int, out_max as int),
{
    proof {
        let p = (x - in_min) * (out_max - out_min);
        let d = in_max - in_min;
        assert(p / d <= p) by (nonlinear_arith)
            requires
                p >= 0,
                d >= 1,
        ;
    }
    (x - in_min) * (out_max - out_min) / (in_max - in_min) + out_min
}

/// The dimmer hardware takes an inverted argument byte: 255 is fully off,
/// and the usable band 0..=100 maps onto 229 down to 26.
pub open spec fn spec_invert_and_map(val: u8) -> int {
    if val == 0 {
        255
    } else {
        spec_map(100 - val, 0, 100, 26, 229)
    }
}

pub fn invert_and_map(val: u8) -> (r: u8)
    requires
        val <= 100,
    ensures
        r == spec_invert_and_map(val),
{
    if val == 0 {
        255
    } else {
        proof {
            let p = (100 - val) * 203int;
            assert(p / 100 <= p) by (nonlinear_arith)
                requires
                    p >= 0,
            ;
        }
        map(100 - val as u32, 0, 100, 26, 229) as u8
    }
}

} // verus!
