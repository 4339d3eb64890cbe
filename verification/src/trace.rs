//! What holds of the event loop over whole sequences of events.
//!
//! Nothing here runs. The functions describe the loop as repeated
//! [`ExporterState::step`], and the lemmas state what no sequence of events
//! can bring about.

use crate::btwatch2::{decode, COMPANY_ID};
use crate::clock::timestamp_or_default;
use crate::event::{Delivery, DiscoveryEvent, Event, NotificationEvent};
use crate::exporter::{Action, ExporterState};
use crate::identity::DeviceIdentity;
use crate::sink::GaugeSet;
use crate::tracker::SubscriptionState;
use std::collections::HashMap;
use vstd::prelude::*;

verus! {

/// The state after the deliveries have been dispatched in order.
pub open spec fn run(s: ExporterState, deliveries: Seq<Delivery>) -> ExporterState
    decreases deliveries.len(),
{
    if deliveries.len() == 0 {
        s
    } else {
        run(s.step(deliveries[0].event, deliveries[0].clock).0, deliveries.drop_first())
    }
}

/// The actions that come back while the deliveries are dispatched in order,
/// one for each delivery.
pub open spec fn actions(s: ExporterState, deliveries: Seq<Delivery>) -> Seq<Action>
    decreases deliveries.len(),
{
    if deliveries.len() == 0 {
        Seq::empty()
    } else {
        let (next, action) = s.step(deliveries[0].event, deliveries[0].clock);
        seq![action] + actions(next, deliveries.drop_first())
    }
}

/// How many of the actions ask for a notification stream.
pub open spec fn subscriptions(done: Seq<Action>) -> nat
    decreases done.len(),
{
    if done.len() == 0 {
        0
    } else {
        let first: nat = if done[0] is Subscribe {
            1
        } else {
            0
        };
        first + subscriptions(done.drop_first())
    }
}

/// How many times the loop asks for a notification stream while the
/// deliveries are dispatched in order.
pub open spec fn streams_opened(s: ExporterState, deliveries: Seq<Delivery>) -> nat {
    subscriptions(actions(s, deliveries))
}

/// Dispatching one more delivery after the others takes one more step from
/// where the others led, and adds its action at the end.
pub proof fn lemma_run_one_more(s: ExporterState, deliveries: Seq<Delivery>, last: Delivery)
    ensures
        run(s, deliveries.push(last)) == run(s, deliveries).step(last.event, last.clock).0,
        actions(s, deliveries.push(last)) == actions(s, deliveries).push(
            run(s, deliveries).step(last.event, last.clock).1,
        ),
    decreases deliveries.len(),
{
    if deliveries.len() == 0 {
        let next = s.step(last.event, last.clock).0;
        assert(deliveries.push(last).drop_first() =~= deliveries);
        assert(run(next, deliveries) == next);
        assert(actions(next, deliveries) =~= Seq::<Action>::empty());
        assert(actions(s, deliveries.push(last)) =~= actions(s, deliveries).push(
            s.step(last.event, last.clock).1,
        ));
    } else {
        let next = s.step(deliveries[0].event, deliveries[0].clock).0;
        assert(deliveries.push(last).drop_first() =~= deliveries.drop_first().push(last));
        lemma_run_one_more(next, deliveries.drop_first(), last);
        assert(actions(s, deliveries.push(last)) =~= actions(s, deliveries).push(
            run(s, deliveries).step(last.event, last.clock).1,
        ));
    }
}

/// A step asks for a notification stream only on the first sighting of the
/// target, and only for the target.
pub proof fn lemma_only_the_target_is_subscribed(
    s: ExporterState,
    event: Event,
    clock: Option<u128>,
)
    ensures
        s.step(event, clock).1 matches Action::Subscribe(id) ==> {
            &&& id == s.tracking.target
            &&& s.tracking.state == SubscriptionState::Unknown
            &&& event == Event::Discovery(DiscoveryEvent::Added(s.tracking.target))
            &&& s.step(event, clock).0.tracking.state == SubscriptionState::Subscribed
        },
{
}

/// The target never changes, and a subscription is never given up.
pub proof fn lemma_subscription_is_kept(s: ExporterState, deliveries: Seq<Delivery>)
    ensures
        run(s, deliveries).tracking.target == s.tracking.target,
        s.tracking.state == SubscriptionState::Subscribed ==> run(s, deliveries).tracking.state
            == SubscriptionState::Subscribed,
    decreases deliveries.len(),
{
    if deliveries.len() > 0 {
        lemma_subscription_is_kept(
            s.step(deliveries[0].event, deliveries[0].clock).0,
            deliveries.drop_first(),
        );
    }
}

/// Subscribing is idempotent: however often the target is announced, and
/// whatever else happens in between, at most one notification stream is ever
/// asked for, and none once the target is subscribed.
pub proof fn lemma_stream_opened_at_most_once(s: ExporterState, deliveries: Seq<Delivery>)
    ensures
        streams_opened(s, deliveries) <= 1,
        s.tracking.state == SubscriptionState::Subscribed ==> streams_opened(s, deliveries) == 0,
    decreases deliveries.len(),
{
    if deliveries.len() > 0 {
        let (next, action) = s.step(deliveries[0].event, deliveries[0].clock);
        let rest = actions(next, deliveries.drop_first());
        lemma_stream_opened_at_most_once(next, deliveries.drop_first());
        assert(actions(s, deliveries)[0] == action);
        assert(actions(s, deliveries).drop_first() =~= rest);
    }
}

/// A peripheral other than the target is filtered out: neither its
/// announcement nor a notification in its name changes the state or asks for
/// anything.
pub proof fn lemma_other_peripherals_are_ignored(
    s: ExporterState,
    other: DeviceIdentity,
    notification: NotificationEvent,
    clock: Option<u128>,
)
    requires
        other != s.tracking.target,
    ensures
        s.step(Event::Discovery(DiscoveryEvent::Added(other)), clock) == (s, Action::Ignore),
        s.step(Event::Discovery(DiscoveryEvent::Removed(other)), clock) == (s, Action::Ignore),
        s.step(Event::Notification(other, notification), clock) == (s, Action::Ignore),
{
}

/// No discovery event ever touches the gauges.
pub proof fn lemma_discovery_keeps_gauges(
    s: ExporterState,
    discovery: DiscoveryEvent,
    clock: Option<u128>,
)
    ensures
        s.step(Event::Discovery(discovery), clock).0.gauges == s.gauges,
        !(s.step(Event::Discovery(discovery), clock).1 is Publish),
{
}

/// Manufacturer data without an entry under the meter's company identifier
/// is skipped: the state stays as it was and nothing is reported, whatever
/// the other entries hold.
pub proof fn lemma_other_companies_are_ignored(
    s: ExporterState,
    source: DeviceIdentity,
    data: HashMap<u16, Vec<u8>>,
    clock: Option<u128>,
)
    requires
        !data@.contains_key(COMPANY_ID),
    ensures
        s.step(Event::Notification(source, NotificationEvent::ManufacturerData(data)), clock) == (
            s,
            Action::Ignore,
        ),
{
}

/// The gauges change in one way only: a step that publishes overwrites them
/// with what it publishes. Every other step leaves them as they were.
pub proof fn lemma_gauges_change_only_by_publishing(
    s: ExporterState,
    event: Event,
    clock: Option<u128>,
)
    ensures
        match s.step(event, clock).1 {
            Action::Publish { gauges, clock_failed } => {
                &&& s.step(event, clock).0.gauges == gauges
                &&& clock_failed == (clock is None)
                &&& gauges.last_measured_ms == timestamp_or_default(clock)
            },
            _ => s.step(event, clock).0.gauges == s.gauges,
        },
{
}

/// The clock decides the time that is recorded and nothing else: whether a
/// step publishes, what it asks for, the tracking and the three measured
/// gauges are the same for every reading, and a step that does not publish is
/// the same step altogether.
pub proof fn lemma_clock_sets_only_the_timestamp(
    s: ExporterState,
    event: Event,
    first: Option<u128>,
    second: Option<u128>,
)
    ensures
        s.step(event, first).0.tracking == s.step(event, second).0.tracking,
        s.step(event, first).0.gauges.voltage == s.step(event, second).0.gauges.voltage,
        s.step(event, first).0.gauges.current == s.step(event, second).0.gauges.current,
        s.step(event, first).0.gauges.power == s.step(event, second).0.gauges.power,
        s.step(event, first).1 is Publish <==> s.step(event, second).1 is Publish,
        !(s.step(event, first).1 is Publish) ==> s.step(event, first) == s.step(event, second),
{
}

/// With no event delivered, nothing changes: the gauges keep their last
/// values.
pub proof fn lemma_idle_keeps_state(s: ExporterState)
    ensures
        run(s, Seq::<Delivery>::empty()) == s,
        streams_opened(s, Seq::<Delivery>::empty()) == 0,
{
}

/// End to end: from the start, a sighting of the target followed by a
/// notification of the target with a well-formed payload asks for one stream
/// and leaves the gauges at the decoded reading, stamped with the clock
/// reading of the notification, or with zero when there is none.
pub proof fn lemma_sighting_then_payload_sets_gauges(
    target: DeviceIdentity,
    notification: NotificationEvent,
    raw: Seq<u8>,
    first_clock: Option<u128>,
    second_clock: Option<u128>,
)
    requires
        notification.payload() == Some(raw),
        decode(raw) is Ok,
    ensures
        ({
            let deliveries = seq![
                Delivery { event: Event::Discovery(DiscoveryEvent::Added(target)), clock: first_clock },
                Delivery { event: Event::Notification(target, notification), clock: second_clock },
            ];
            &&& run(ExporterState::initial(target), deliveries).gauges == GaugeSet::of(
                decode(raw)->Ok_0,
                timestamp_or_default(second_clock),
            )
            &&& streams_opened(ExporterState::initial(target), deliveries) == 1
        }),
{
    let s0 = ExporterState::initial(target);
    let d0 = Delivery { event: Event::Discovery(DiscoveryEvent::Added(target)), clock: first_clock };
    let d1 = Delivery { event: Event::Notification(target, notification), clock: second_clock };
    let deliveries = seq![d0, d1];
    let s1 = s0.step(d0.event, d0.clock).0;
    let s2 = s1.step(d1.event, d1.clock).0;
    assert(deliveries.drop_first() =~= seq![d1]);
    assert(seq![d1].drop_first() =~= Seq::<Delivery>::empty());
    assert(run(s2, Seq::<Delivery>::empty()) == s2);
    assert(run(s1, seq![d1]) == s2);
    assert(run(s0, deliveries) == s2);
    lemma_stream_opened_at_most_once(s1, seq![d1]);
    assert(actions(s0, deliveries)[0] == Action::Subscribe(target));
    assert(actions(s0, deliveries).drop_first() =~= actions(s1, seq![d1]));
}

} // verus!
