//! The dispatcher: one step of the event loop, from the state and an event to
//! the next state and what the caller has to do.
//!
//! The caller owns the sources. It waits on them, hands each event to
//! [`Exporter::dispatch`] in the order in which they became ready, and carries
//! out the [`Action`] that comes back before it waits again.

use crate::btwatch2::{decode, parse_manufacturer_data, DecodeError};
use crate::clock::{read_millis, timestamp_from, timestamp_or_default};
use crate::event::{Delivery, DiscoveryEvent, Event, NotificationEvent};
use crate::identity::DeviceIdentity;
use crate::sink::{GaugeSet, MetricSink};
use crate::trace::{actions, lemma_run_one_more, run};
use crate::tracker::{SubscriptionState, SubscriptionTracker, Tracking};
use vstd::prelude::*;

verus! {

/// What the caller has to do after an event has been dispatched.
#[derive(Clone, Copy, Debug, PartialEq, Eq)]
pub enum Action {
    /// Nothing: the event left the state as it was.
    Ignore,
    /// Open the notification stream of this peripheral and add it to the
    /// sources that are waited on.
    Subscribe(DeviceIdentity),
    /// Publish the gauges, which have just been overwritten. `clock_failed`
    /// says that the clock could not be read and zero was recorded as the
    /// time.
    Publish { gauges: GaugeSet, clock_failed: bool },
    /// Nothing but a diagnostic: the payload was malformed and the gauges
    /// keep their last values.
    Reject(DecodeError),
}

/// Everything the exporter remembers between two events.
pub struct ExporterState {
    pub tracking: Tracking,
    pub gauges: GaugeSet,
}

impl ExporterState {
    /// The state before any event: `target` not yet seen, all gauges zero.
    pub open spec fn initial(target: DeviceIdentity) -> ExporterState {
        ExporterState {
            tracking: Tracking { target, state: SubscriptionState::Unknown },
            gauges: GaugeSet::unset(),
        }
    }

    /// A discovery event goes to the tracker. Only the first sighting of the
    /// target has an effect: it asks for the target's notification stream.
    pub open spec fn on_discovery(self, event: DiscoveryEvent) -> (ExporterState, Action) {
        if self.tracking.opens_stream(event) {
            (
                ExporterState { tracking: self.tracking.after(event), gauges: self.gauges },
                Action::Subscribe(self.tracking.target),
            )
        } else {
            (self, Action::Ignore)
        }
    }

    /// A notification is looked at only when it comes from the subscribed
    /// target and carries a payload under the meter's company identifier. The
    /// payload is decoded; a reading overwrites the gauges, stamped with
    /// `clock` or with zero, and a malformed payload is reported.
    pub open spec fn on_notification(
        self,
        source: DeviceIdentity,
        event: NotificationEvent,
        clock: Option<u128>,
    ) -> (ExporterState, Action) {
        if !self.tracking.listens_to(source) {
            (self, Action::Ignore)
        } else {
            match event.payload() {
                None => (self, Action::Ignore),
                Some(raw) => match decode(raw) {
                    Err(error) => (self, Action::Reject(error)),
                    Ok(m) => {
                        let gauges = GaugeSet::of(m, timestamp_or_default(clock));
                        (
                            ExporterState { tracking: self.tracking, gauges },
                            Action::Publish { gauges, clock_failed: clock is None },
                        )
                    },
                },
            }
        }
    }

    /// One step of the event loop. `clock` is the reading of the host clock
    /// at the moment of the step, `None` when it could not be read.
    pub open spec fn step(self, event: Event, clock: Option<u128>) -> (ExporterState, Action) {
        match event {
            Event::Discovery(discovery) => self.on_discovery(discovery),
            Event::Notification(source, notification) => self.on_notification(
                source,
                notification,
                clock,
            ),
        }
    }
}

/// The core of the exporter: the subscription tracker and the metric sink
/// behind one dispatcher.
#[derive(Debug)]
pub struct Exporter {
    tracker: SubscriptionTracker,
    sink: MetricSink,
}

impl View for Exporter {
    type V = ExporterState;

    closed spec fn view(&self) -> ExporterState {
        ExporterState { tracking: self.tracker@, gauges: self.sink@ }
    }
}

/// Where the time of a reading comes from.
enum TimeSource {
    /// From the host clock, read at the moment a reading is recorded.
    Host,
    /// From the caller.
    Given(Option<u128>),
}

impl TimeSource {
    /// Whether `clock` is a reading that this source can give.
    spec fn gives(self, clock: Option<u128>) -> bool {
        match self {
            TimeSource::Host => true,
            TimeSource::Given(reading) => clock == reading,
        }
    }

    /// Takes a reading.
    fn read(self) -> (clock: Option<u128>)
        ensures
            self.gives(clock),
    {
        match self {
            TimeSource::Host => read_millis(),
            TimeSource::Given(reading) => reading,
        }
    }
}

impl Exporter {
    /// An exporter that looks for `target` and has recorded nothing.
    pub fn new(target: DeviceIdentity) -> (exporter: Self)
        ensures
            exporter@ == ExporterState::initial(target),
    {
        Exporter { tracker: SubscriptionTracker::new(target), sink: MetricSink::new() }
    }

    /// The peripheral that is looked for.
    pub fn target(&self) -> (target: DeviceIdentity)
        ensures
            target == self@.tracking.target,
    {
        self.tracker.target()
    }

    /// How far the subscription to the target has got.
    pub fn subscription(&self) -> (state: SubscriptionState)
        ensures
            state == self@.tracking.state,
    {
        self.tracker.state()
    }

    /// The current content of the gauges.
    pub fn gauges(&self) -> (gauges: GaugeSet)
        ensures
            gauges == self@.gauges,
    {
        self.sink.gauges()
    }

    /// One step of the event loop. The time source is consulted only when
    /// a reading is recorded.
    fn step_with(&mut self, event: &Event, time: TimeSource) -> (action: Action)
        ensures
            exists|clock: Option<u128>|
                time.gives(clock) && (final(self)@, action) == #[trigger] old(self)@.step(
                    *event,
                    clock,
                ),
    {
        // The reading that the step is taken with: the one that was read, and
        // where none was read, any that the source could have given.
        let ghost mut taken = match time {
            TimeSource::Host => None,
            TimeSource::Given(reading) => reading,
        };
        let action = match event {
            Event::Discovery(discovery) => {
                if self.tracker.observe(discovery) {
                    Action::Subscribe(self.tracker.target())
                } else {
                    Action::Ignore
                }
            },
            Event::Notification(source, notification) => {
                if self.tracker.listens_to(source) {
                    match notification.meter_payload() {
                        None => Action::Ignore,
                        Some(raw) => match parse_manufacturer_data(raw) {
                            Err(error) => Action::Reject(error),
                            Ok(m) => {
                                let clock = time.read();
                                proof {
                                    taken = clock;
                                }
                                self.sink.record(m, timestamp_from(clock));
                                Action::Publish {
                                    gauges: self.sink.gauges(),
                                    clock_failed: clock.is_none(),
                                }
                            },
                        },
                    }
                } else {
                    Action::Ignore
                }
            },
        };
        assert((self@, action) == old(self)@.step(*event, taken));
        action
    }

    /// Dispatches one event, with the clock reading given by the caller.
    pub fn dispatch_at(&mut self, event: &Event, clock: Option<u128>) -> (action: Action)
        ensures
            (final(self)@, action) == old(self)@.step(*event, clock),
    {
        self.step_with(event, TimeSource::Given(clock))
    }

    /// Dispatches one event. The host clock is read when, and only when, the
    /// event brings a reading to record; whatever the clock gives, the step
    /// is the one that [`ExporterState::step`] describes for that reading.
    pub fn dispatch(&mut self, event: &Event) -> (action: Action)
        ensures
            exists|clock: Option<u128>|
                (final(self)@, action) == #[trigger] old(self)@.step(*event, clock),
    {
        self.step_with(event, TimeSource::Host)
    }

    /// Dispatches a recorded sequence of deliveries in order, each with the
    /// clock reading that it carries, and returns the actions, one for each
    /// delivery.
    pub fn replay(&mut self, deliveries: &Vec<Delivery>) -> (done: Vec<Action>)
        ensures
            final(self)@ == run(old(self)@, deliveries@),
            done@ == actions(old(self)@, deliveries@),
    {
        let mut done: Vec<Action> = Vec::new();
        let mut i: usize = 0;
        while i < deliveries.len()
            invariant
                i <= deliveries.len(),
                self@ == run(old(self)@, deliveries@.take(i as int)),
                done@ == actions(old(self)@, deliveries@.take(i as int)),
            decreases deliveries.len() - i,
        {
            proof {
                lemma_run_one_more(old(self)@, deliveries@.take(i as int), deliveries@[i as int]);
                assert(deliveries@.take(i as int).push(deliveries@[i as int]) =~= deliveries@.take(
                    i + 1,
                ));
            }
            let action = self.dispatch_at(&deliveries[i].event, deliveries[i].clock);
            done.push(action);
            i += 1;
        }
        assert(deliveries@.take(i as int) =~= deliveries@);
        done
    }
}

} // verus!
