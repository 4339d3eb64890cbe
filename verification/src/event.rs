//! Events that the radio stack delivers to the core.

use crate::btwatch2::COMPANY_ID;
use crate::identity::DeviceIdentity;
use std::collections::HashMap;
use vstd::prelude::*;

verus! {

/// A change in the set of peripherals that the radio can see.
#[derive(Clone, Copy, Debug)]
pub enum DiscoveryEvent {
    /// The peripheral has become visible, or was announced again.
    Added(DeviceIdentity),
    /// The peripheral has gone out of range.
    Removed(DeviceIdentity),
    /// Anything else that the radio reports about itself.
    Other,
}

/// A property change reported by a peripheral that is being listened to.
#[derive(Debug)]
pub enum NotificationEvent {
    /// Manufacturer data, keyed by company identifier.
    ManufacturerData(HashMap<u16, Vec<u8>>),
    /// Any other property.
    Other,
}

/// One item of the merged event sequence.
#[derive(Debug)]
pub enum Event {
    /// From the discovery source.
    Discovery(DiscoveryEvent),
    /// From the notification source of the named peripheral.
    Notification(DeviceIdentity, NotificationEvent),
}

/// An event together with the reading of the host clock at the moment it is
/// dispatched, `None` when the clock could not be read.
#[derive(Debug)]
pub struct Delivery {
    pub event: Event,
    pub clock: Option<u128>,
}

impl NotificationEvent {
    /// The bytes published under [`COMPANY_ID`], if the event carries any.
    pub open spec fn payload(&self) -> Option<Seq<u8>> {
        match self {
            NotificationEvent::ManufacturerData(data) => if data@.contains_key(COMPANY_ID) {
                Some(data@[COMPANY_ID]@)
            } else {
                None
            },
            NotificationEvent::Other => None,
        }
    }

    /// Looks up the entry under [`COMPANY_ID`]. Entries under other keys are
    /// never read.
    pub fn meter_payload(&self) -> (found: Option<&Vec<u8>>)
        ensures
            match found {
                Some(bytes) => self.payload() == Some(bytes@),
                None => self.payload() is None,
            },
    {
        match self {
            NotificationEvent::ManufacturerData(data) => data.get(&COMPANY_ID),
            NotificationEvent::Other => None,
        }
    }
}

} // verus!
