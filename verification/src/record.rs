//! Resolved service records: what discovery reports of a device.

use crate::address::Ipv4;
use mdns_sd::ServiceInfo;
use vstd::prelude::*;

verus! {

/// `mdns_sd::ServiceInfo`, the record of a service instance. Its fields are
/// private to its crate; the library reads it through the two functions
/// below.
#[verifier::external_type_specification]
#[verifier::external_body]
pub struct ExServiceInfo(mdns_sd::ServiceInfo);

/// The IPv4 addresses that a service record holds, each as its 32-bit
/// number, most significant octet first.
pub uninterp spec fn service_v4_addresses(info: ServiceInfo) -> Set<u32>;

/// The port that a service record holds.
pub uninterp spec fn service_port(info: ServiceInfo) -> u16;

/// Calls `mdns_sd::ServiceInfo::get_addresses_v4`, which collects the IPv4
/// addresses of the record into a hash set, and hands each of them out as
/// its 32-bit number, by the standard conversion of an address to `u32`.
/// Assumed: the numbers handed out are those of the record's IPv4
/// addresses, no more and no fewer. Nothing is assumed of their order,
/// which is that of a walk through a hash set.
#[verifier::external_body]
fn read_v4_addresses(info: &ServiceInfo) -> (out: Vec<u32>)
    ensures
        out@.to_set() == service_v4_addresses(*info),
{
    info.get_addresses_v4().into_iter().map(|ip| u32::from(*ip)).collect()
}

/// Calls `mdns_sd::ServiceInfo::get_port`, which returns the port field of
/// the record.
#[verifier::external_body]
fn read_port(info: &ServiceInfo) -> (port: u16)
    ensures
        port == service_port(*info),
{
    info.get_port()
}

/// The part of a resolved service record that pairing needs: the IPv4
/// addresses of the device, in the order in which they were handed out, and
/// its port.
#[derive(Debug, Clone, PartialEq, Eq)]
pub struct ResolvedRecord {
    pub addresses: Vec<Ipv4>,
    pub port: u16,
}

impl ResolvedRecord {
    /// The 32-bit numbers of the addresses of the record.
    pub open spec fn address_bits(self) -> Set<u32> {
        Set::new(
            |bits: u32|
                exists|i: int|
                    0 <= i < self.addresses@.len() && #[trigger] self.addresses@[i].bits() == bits,
        )
    }

    /// A record with the given addresses and port.
    pub fn new(addresses: Vec<Ipv4>, port: u16) -> (record: ResolvedRecord)
        ensures
            record.addresses@ == addresses@,
            record.port == port,
    {
        ResolvedRecord { addresses, port }
    }

    /// Reads the IPv4 addresses and the port of a service record.
    ///
    /// The addresses come in an order that the record does not fix.
    pub fn read(info: &ServiceInfo) -> (record: ResolvedRecord)
        ensures
            record.address_bits() == service_v4_addresses(*info),
            record.port == service_port(*info),
    {
        let raw = read_v4_addresses(info);
        let port = read_port(info);
        let mut addresses: Vec<Ipv4> = Vec::new();
        let mut i: usize = 0;
        while i < raw.len()
            invariant
                i <= raw.len(),
                addresses@.len() == i,
                forall|k: int| 0 <= k < i ==> (#[trigger] addresses@[k]).bits() == raw@[k],
            decreases raw.len() - i,
        {
            addresses.push(Ipv4::from_bits(raw[i]));
            i += 1;
        }
        let record = ResolvedRecord { addresses, port };
        proof {
            assert forall|bits: u32|
                record.address_bits().contains(bits) == raw@.to_set().contains(bits) by {
                if record.address_bits().contains(bits) {
                    let k = choose|k: int|
                        0 <= k < record.addresses@.len() && #[trigger] record.addresses@[k].bits()
                            == bits;
                    assert(raw@[k] == bits);
                    assert(raw@.contains(bits));
                }
                if raw@.to_set().contains(bits) {
                    let k = choose|k: int| 0 <= k < raw@.len() && raw@[k] == bits;
                    assert(record.addresses@[k].bits() == bits);
                }
            }
            assert(record.address_bits() =~= raw@.to_set());
        }
        record
    }
}

} // verus!
