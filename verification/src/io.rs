//! The boundary between device logic and the outside world. Device methods
//! compute exactly which serial commands and which web requests must go
//! out and append them here; the embedding program drains the queues and
//! performs the actual writes.

use vstd::prelude::*;

verus! {

/// One three-byte command for the serial bus: a command type, the bus id
/// of the device, and one argument byte.
#[derive(Clone, Copy, PartialEq, Eq, Structural, Debug)]
pub struct Cmd {
    pub _type: u8,
    pub id: u8,
    pub args: u8,
}

impl Cmd {
    pub fn new(_type: u8, id: u8, args: u8) -> (c: Cmd)
        ensures
            c == (Cmd { _type, id, args }),
    {
        Cmd { _type, id, args }
    }
}

/// One request to a web device: the device's id and the argument strings
/// that become the request's query parameters.
pub struct WebRequest {
    pub id: String,
    pub args: Vec<String>,
}

impl WebRequest {
    /// The argument strings as sequences of characters.
    pub open spec fn spec_args(self) -> Seq<Seq<char>> {
        self.args@.map_values(|s: String| s@)
    }
}

/// The outgoing side of the controller: everything the devices decided to
/// send, in order, not yet performed.
pub struct IO {
    pub serial_out: Vec<Cmd>,
    pub web_out: Vec<WebRequest>,
}

impl IO {
    pub fn new() -> (io: IO)
        ensures
            io.serial_out@ == Seq::<Cmd>::empty(),
            io.web_out@ == Seq::<WebRequest>::empty(),
    {
        IO { serial_out: Vec::new(), web_out: Vec::new() }
    }

    /// Queues one command for the serial bus.
    pub fn serial_write(&mut self, cmd: Cmd)
        ensures
            final(self).serial_out@ == old(self).serial_out@.push(cmd),
            final(self).web_out@ == old(self).web_out@,
    {
        self.serial_out.push(cmd);
    }

    /// Queues one request to a web device.
    pub fn send(&mut self, id: &str, args: Vec<String>)
        ensures
            final(self).web_out@.len() == old(self).web_out@.len() + 1,
            final(self).web_out@.last().id@ == id@,
            final(self).web_out@.last().args@ == args@,
            final(self).web_out@.drop_last() == old(self).web_out@,
            final(self).serial_out@ == old(self).serial_out@,
    {
        let request = WebRequest { id: id.to_owned(), args };
        self.web_out.push(request);
        proof {
            assert(self.web_out@.drop_last() =~= old(self).web_out@);
        }
    }
}

/// The registry behind the controller's device API: which device ids exist
/// and of which kind each one is. The devices themselves live in the rooms
/// that own them.
pub struct DevicesHolder {
    devices: Vec<(String, crate::devices::DeviceType)>,
}

impl DevicesHolder {
    /// The registrations in the order they were made.
    pub closed spec fn entries(self) -> Seq<(String, crate::devices::DeviceType)> {
        self.devices@
    }

    pub fn new() -> (h: DevicesHolder)
        ensures
            h.entries() == Seq::<(String, crate::devices::DeviceType)>::empty(),
    {
        DevicesHolder { devices: Vec::new() }
    }

    /// Registers one device under its id.
    pub fn reg_device(&mut self, id: &str, dev_type: crate::devices::DeviceType)
        ensures
            final(self).entries().len() == old(self).entries().len() + 1,
            final(self).entries().last().0@ == id@,
            final(self).entries().last().1 == dev_type,
            final(self).entries().drop_last() == old(self).entries(),
    {
        self.devices.push((id.to_owned(), dev_type));
        proof {
            assert(self.devices@.drop_last() =~= old(self).devices@);
        }
    }

    /// All registered devices, in registration order.
    pub fn devices(&self) -> (r: &Vec<(String, crate::devices::DeviceType)>)
        ensures
            r@ == self.entries(),
    {
        &self.devices
    }
}

} // verus!
