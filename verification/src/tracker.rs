//! The subscription tracker: whether the target peripheral is being listened
//! to.

use crate::event::DiscoveryEvent;
use crate::identity::DeviceIdentity;
use vstd::prelude::*;

verus! {

/// Progress of the one subscription that the core keeps.
#[derive(Clone, Copy, Debug, PartialEq, Eq, Structural)]
pub enum SubscriptionState {
    /// The target has not been seen; no notification stream is open.
    Unknown,
    /// The notification stream of the target has been asked for. There is no
    /// way back from here.
    Subscribed,
}

/// What a tracker knows: whom it looks for, and how far it has got.
pub struct Tracking {
    pub target: DeviceIdentity,
    pub state: SubscriptionState,
}

impl Tracking {
    /// Whether `event` is the first sighting of the target, the only event
    /// that opens a notification stream.
    pub open spec fn opens_stream(self, event: DiscoveryEvent) -> bool {
        self.state == SubscriptionState::Unknown && event == DiscoveryEvent::Added(self.target)
    }

    /// The tracking after `event`. The target never changes, and only a first
    /// sighting changes the state.
    pub open spec fn after(self, event: DiscoveryEvent) -> Tracking {
        if self.opens_stream(event) {
            Tracking { target: self.target, state: SubscriptionState::Subscribed }
        } else {
            self
        }
    }

    /// Whether a notification said to come from `source` comes from the
    /// subscribed target.
    pub open spec fn listens_to(self, source: DeviceIdentity) -> bool {
        self.state == SubscriptionState::Subscribed && source == self.target
    }
}

/// State machine of the subscription to the target peripheral.
#[derive(Debug)]
pub struct SubscriptionTracker {
    target: DeviceIdentity,
    state: SubscriptionState,
}

impl View for SubscriptionTracker {
    type V = Tracking;

    closed spec fn view(&self) -> Tracking {
        Tracking { target: self.target, state: self.state }
    }
}

impl SubscriptionTracker {
    /// A tracker that has not yet seen `target`.
    pub fn new(target: DeviceIdentity) -> (tracker: Self)
        ensures
            tracker@ == (Tracking { target, state: SubscriptionState::Unknown }),
    {
        SubscriptionTracker { target, state: SubscriptionState::Unknown }
    }

    /// The peripheral that this tracker looks for.
    pub fn target(&self) -> (target: DeviceIdentity)
        ensures
            target == self@.target,
    {
        self.target
    }

    /// How far the subscription has got.
    pub fn state(&self) -> (state: SubscriptionState)
        ensures
            state == self@.state,
    {
        self.state
    }

    /// Takes note of a discovery event. Returns `true` when the caller has to
    /// open the notification stream of the target: on the first sighting of
    /// the target and on no other event.
    pub fn observe(&mut self, event: &DiscoveryEvent) -> (open: bool)
        ensures
            open == old(self)@.opens_stream(*event),
            final(self)@ == old(self)@.after(*event),
    {
        match event {
            DiscoveryEvent::Added(id) => {
                if id.same(&self.target) {
                    match self.state {
                        SubscriptionState::Unknown => {
                            self.state = SubscriptionState::Subscribed;
                            true
                        },
                        SubscriptionState::Subscribed => false,
                    }
                } else {
                    false
                }
            },
            DiscoveryEvent::Removed(_) => false,
            DiscoveryEvent::Other => false,
        }
    }

    /// Whether notifications of `source` are to be processed.
    pub fn listens_to(&self, source: &DeviceIdentity) -> (b: bool)
        ensures
            b == self@.listens_to(*source),
    {
        match self.state {
            SubscriptionState::Unknown => false,
            SubscriptionState::Subscribed => source.same(&self.target),
        }
    }
}

} // verus!
