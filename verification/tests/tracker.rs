use rt_btwatch2_exporter::event::DiscoveryEvent;
use rt_btwatch2_exporter::identity::DeviceIdentity;
use rt_btwatch2_exporter::tracker::{SubscriptionState, SubscriptionTracker};

fn target() -> DeviceIdentity {
    DeviceIdentity::new([0xAA, 0xBB, 0xCC, 0x11, 0x22, 0x33])
}

fn stranger() -> DeviceIdentity {
    DeviceIdentity::new([0xAA, 0xBB, 0xCC, 0x11, 0x22, 0x34])
}

#[test]
fn identity_compares_all_octets() {
    let base = [0x10, 0x20, 0x30, 0x40, 0x50, 0x60];
    assert_eq!(DeviceIdentity::new(base), DeviceIdentity::new(base));
    assert!(DeviceIdentity::new(base).same(&DeviceIdentity::new(base)));
    for i in 0..6 {
        let mut changed = base;
        changed[i] ^= 0x01;
        assert_ne!(DeviceIdentity::new(base), DeviceIdentity::new(changed));
        assert!(!DeviceIdentity::new(base).same(&DeviceIdentity::new(changed)));
    }
}

#[test]
fn identity_keeps_octets() {
    let id = DeviceIdentity::new([1, 2, 3, 4, 5, 6]);
    assert_eq!(id.octets, [1, 2, 3, 4, 5, 6]);
}

#[test]
fn tracker_starts_unknown() {
    let tracker = SubscriptionTracker::new(target());
    assert_eq!(tracker.state(), SubscriptionState::Unknown);
    assert_eq!(tracker.target(), target());
    assert!(!tracker.listens_to(&target()));
}

#[test]
fn tracker_subscribes_on_first_sighting() {
    let mut tracker = SubscriptionTracker::new(target());
    assert!(tracker.observe(&DiscoveryEvent::Added(target())));
    assert_eq!(tracker.state(), SubscriptionState::Subscribed);
    assert!(tracker.listens_to(&target()));
    assert!(!tracker.listens_to(&stranger()));
}

#[test]
fn tracker_subscribes_once() {
    let mut tracker = SubscriptionTracker::new(target());
    let mut opened = 0;
    for _ in 0..5 {
        if tracker.observe(&DiscoveryEvent::Added(target())) {
            opened += 1;
        }
    }
    assert_eq!(opened, 1);
    assert_eq!(tracker.state(), SubscriptionState::Subscribed);
}

#[test]
fn tracker_ignores_other_peripherals() {
    let mut tracker = SubscriptionTracker::new(target());
    assert!(!tracker.observe(&DiscoveryEvent::Added(stranger())));
    assert!(!tracker.observe(&DiscoveryEvent::Removed(stranger())));
    assert_eq!(tracker.state(), SubscriptionState::Unknown);
    assert_eq!(tracker.target(), target());
}

#[test]
fn tracker_ignores_removal_and_other_events() {
    let mut tracker = SubscriptionTracker::new(target());
    assert!(!tracker.observe(&DiscoveryEvent::Removed(target())));
    assert!(!tracker.observe(&DiscoveryEvent::Other));
    assert_eq!(tracker.state(), SubscriptionState::Unknown);
    assert!(tracker.observe(&DiscoveryEvent::Added(target())));
    assert!(!tracker.observe(&DiscoveryEvent::Removed(target())));
    assert!(!tracker.observe(&DiscoveryEvent::Other));
    assert_eq!(tracker.state(), SubscriptionState::Subscribed);
    assert!(tracker.listens_to(&target()));
}

#[test]
fn tracker_does_not_resubscribe_after_removal() {
    let mut tracker = SubscriptionTracker::new(target());
    assert!(tracker.observe(&DiscoveryEvent::Added(target())));
    assert!(!tracker.observe(&DiscoveryEvent::Removed(target())));
    assert!(!tracker.observe(&DiscoveryEvent::Added(target())));
    assert_eq!(tracker.state(), SubscriptionState::Subscribed);
}
