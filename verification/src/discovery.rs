//! The decisions of the discovery listener.
//!
//! The listener waits for notifications of the discovery mechanism and
//! hands a device to the workflow for every service that was resolved. It
//! ends when the mechanism closes its stream of notifications.

use crate::device::{Device, ExtractError};
use crate::record::{service_port, service_v4_addresses, ResolvedRecord};
use mdns_sd::ServiceInfo;
use vstd::prelude::*;

verus! {

/// What the discovery mechanism tells the listener.
#[derive(Debug)]
pub enum Notification {
    /// A service was resolved; its record is attached.
    Resolved(ServiceInfo),
    /// The search started or stopped, or a service was found or removed.
    Other,
    /// The stream of notifications is closed.
    Closed,
}

/// What the listener does with a notification.
#[derive(Debug, Clone, Copy, PartialEq, Eq)]
pub enum Reaction {
    /// Send the device to the workflow and go on listening.
    Forward(Device),
    /// Go on listening.
    Ignore,
    /// Report that a resolved record could not be used.
    Fail(ExtractError),
    /// Stop listening.
    Stop,
}

/// The reaction to a resolved record: forward its device, or fail where it
/// describes none.
pub open spec fn reaction_to_record(record: ResolvedRecord) -> Reaction {
    match Device::of_record(record) {
        Ok(device) => Reaction::Forward(device),
        Err(e) => Reaction::Fail(e),
    }
}

/// Decides what the listener does with a resolved record.
pub fn react_to_record(record: &ResolvedRecord) -> (reaction: Reaction)
    ensures
        reaction == reaction_to_record(*record),
{
    match Device::from_record(record) {
        Ok(device) => Reaction::Forward(device),
        Err(e) => Reaction::Fail(e),
    }
}

/// Decides what the listener does with a notification.
///
/// A resolved service is forwarded as a device with one of the IPv4
/// addresses of its record and with its port; where the record has no
/// IPv4 address the listener fails. The end of the stream stops the
/// listener, and every other notification is ignored.
pub fn react(notification: Notification) -> (reaction: Reaction)
    ensures
        notification is Other ==> reaction == Reaction::Ignore,
        notification is Closed ==> reaction == Reaction::Stop,
        notification matches Notification::Resolved(info) ==> {
            if service_v4_addresses(info) =~= Set::<u32>::empty() {
                reaction == Reaction::Fail(ExtractError::NoIpv4Address)
            } else {
                &&& reaction matches Reaction::Forward(device)
                &&& service_v4_addresses(info).contains(device.ip.bits())
                &&& device.port == service_port(info)
            }
        },
{
    match notification {
        Notification::Resolved(info) => {
            let record = ResolvedRecord::read(&info);
            proof {
                if record.addresses@.len() > 0 {
                    assert(record.address_bits().contains(record.addresses@[0].bits()));
                }
            }
            react_to_record(&record)
        },
        Notification::Other => Reaction::Ignore,
        Notification::Closed => Reaction::Stop,
    }
}

} // verus!
