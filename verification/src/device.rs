//! The descriptor of a discovered device.

use crate::address::Ipv4;
use crate::decimal::{decimal_digits, push_decimal};
use crate::process::{Invocation, InvocationView};
use crate::record::{service_port, service_v4_addresses, ResolvedRecord};
use mdns_sd::ServiceInfo;
use vstd::prelude::*;

verus! {

/// Why no device could be made from a resolved record.
#[derive(Debug, Clone, Copy, PartialEq, Eq)]
pub enum ExtractError {
    /// The record carries no IPv4 address.
    NoIpv4Address,
}

/// A device found on the network: where its pairing service listens.
#[derive(Debug, Clone, Copy, PartialEq, Eq, Structural)]
pub struct Device {
    pub ip: Ipv4,
    pub port: u16,
}

/// `host:port` notation: the dotted-decimal address, a colon, and the port
/// in decimal.
pub open spec fn host_port(ip: Ipv4, port: u16) -> Seq<char> {
    ip.rendered() + seq![':'] + decimal_digits(port as nat)
}

/// The `host:port` notation of `ip` and `port`.
pub fn render_host_port(ip: &Ipv4, port: u16) -> (s: String)
    ensures
        s@ == host_port(*ip, port),
{
    let mut s = String::new();
    ip.push_to(&mut s);
    s.push(':');
    push_decimal(&mut s, port as u64);
    assert(s@ =~= host_port(*ip, port));
    s
}

impl Device {
    /// The device as `host:port`.
    pub open spec fn rendered(self) -> Seq<char> {
        host_port(self.ip, self.port)
    }

    /// The invocation that pairs with the device: `adb pair <host:port>
    /// <password>`.
    pub open spec fn pair_invocation(self, password: Seq<char>) -> InvocationView {
        InvocationView { program: "adb"@, args: seq!["pair"@, self.rendered(), password] }
    }

    /// The invocation that connects to the device on `port`: `adb connect
    /// <host:port>`, with the device's address and the given port.
    pub open spec fn connect_invocation(self, port: u16) -> InvocationView {
        InvocationView { program: "adb"@, args: seq!["connect"@, host_port(self.ip, port)] }
    }

    /// The device that a record describes: its first address and its port.
    pub open spec fn of_record(record: ResolvedRecord) -> Result<Device, ExtractError> {
        if record.addresses@.len() == 0 {
            Err(ExtractError::NoIpv4Address)
        } else {
            Ok(Device { ip: record.addresses@[0], port: record.port })
        }
    }

    /// Makes a device from a resolved record: the first of its IPv4
    /// addresses and its port. A record without an IPv4 address gives an
    /// error.
    pub fn from_record(record: &ResolvedRecord) -> (r: Result<Device, ExtractError>)
        ensures
            r == Device::of_record(*record),
    {
        if record.addresses.len() == 0 {
            Err(ExtractError::NoIpv4Address)
        } else {
            Ok(Device { ip: record.addresses[0], port: record.port })
        }
    }

    /// Makes a device from a resolved service record: one of its IPv4
    /// addresses, and its port. Which address is taken, where the record
    /// holds several, is not fixed. A record without an IPv4 address gives
    /// an error.
    pub fn new(service_info: ServiceInfo) -> (r: Result<Device, ExtractError>)
        ensures
            r is Err <==> service_v4_addresses(service_info) =~= Set::<u32>::empty(),
            r matches Err(e) ==> e == ExtractError::NoIpv4Address,
            r matches Ok(device) ==> service_v4_addresses(service_info).contains(device.ip.bits())
                && device.port == service_port(service_info),
    {
        let record = ResolvedRecord::read(&service_info);
        let r = Device::from_record(&record);
        proof {
            if record.addresses@.len() > 0 {
                assert(record.address_bits().contains(record.addresses@[0].bits()));
            }
        }
        r
    }

    /// The device as `host:port`, for display and as an argument of the
    /// pairing invocation.
    pub fn to_string(&self) -> (s: String)
        ensures
            s@ == self.rendered(),
    {
        render_host_port(&self.ip, self.port)
    }

    /// The invocation that pairs with the device under `password`.
    pub fn pair(&self, password: &str) -> (invocation: Invocation)
        ensures
            invocation@ == self.pair_invocation(password@),
    {
        let mut args: Vec<String> = Vec::new();
        args.push("pair".to_owned());
        args.push(self.to_string());
        args.push(password.to_owned());
        let invocation = Invocation { program: "adb".to_owned(), args };
        assert(invocation@.args =~= self.pair_invocation(password@).args);
        invocation
    }

    /// The invocation that connects to the device on `port`.
    pub fn connect(&self, port: u16) -> (invocation: Invocation)
        ensures
            invocation@ == self.connect_invocation(port),
    {
        let mut args: Vec<String> = Vec::new();
        args.push("connect".to_owned());
        args.push(render_host_port(&self.ip, port));
        let invocation = Invocation { program: "adb".to_owned(), args };
        assert(invocation@.args =~= self.connect_invocation(port).args);
        invocation
    }
}

} // verus!
