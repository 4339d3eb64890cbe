//! The metric sink: the last observed reading and when it was taken.

use crate::btwatch2::Measurement;
use vstd::prelude::*;

verus! {

/// Name under which the voltage gauge is published, in volts.
pub const VOLTAGE_GAUGE: &'static str = "voltage_volt";

/// Name under which the current gauge is published, in amperes.
pub const CURRENT_GAUGE: &'static str = "current_ampere";

/// Name under which the power gauge is published, in watts.
pub const POWER_GAUGE: &'static str = "power_watt";

/// Name under which the time of the last reading is published, in
/// milliseconds since the Unix epoch.
pub const LAST_MEASURED_GAUGE: &'static str = "last_measured_timestamp_ms";

/// The four gauge slots, in the same integer counts as a [`Measurement`].
#[derive(Clone, Copy, Debug, PartialEq, Eq, Structural)]
pub struct GaugeSet {
    /// Voltage in tenths of a volt.
    pub voltage: u16,
    /// Current in thousandths of an ampere.
    pub current: u16,
    /// Power in thousandths of a watt.
    pub power: u32,
    /// When the reading was observed, in milliseconds since the Unix epoch.
    pub last_measured_ms: u128,
}

impl GaugeSet {
    /// The slots before anything has been recorded.
    pub open spec fn unset() -> GaugeSet {
        GaugeSet { voltage: 0, current: 0, power: 0, last_measured_ms: 0 }
    }

    /// The slots after `m`, observed at `observed_at_ms`, has been recorded.
    /// Nothing of an earlier content remains, and the relay status is not
    /// kept.
    pub open spec fn of(m: Measurement, observed_at_ms: u128) -> GaugeSet {
        GaugeSet {
            voltage: m.voltage,
            current: m.current,
            power: m.power,
            last_measured_ms: observed_at_ms,
        }
    }
}

/// Owner of the gauge slots. They change only through [`MetricSink::record`].
#[derive(Clone, Copy, Debug)]
pub struct MetricSink {
    gauges: GaugeSet,
}

impl View for MetricSink {
    type V = GaugeSet;

    closed spec fn view(&self) -> GaugeSet {
        self.gauges
    }
}

impl MetricSink {
    /// A sink in which every slot is zero.
    pub fn new() -> (sink: Self)
        ensures
            sink@ == GaugeSet::unset(),
    {
        MetricSink { gauges: GaugeSet { voltage: 0, current: 0, power: 0, last_measured_ms: 0 } }
    }

    /// Overwrites all four slots. No value is checked or rejected.
    pub fn record(&mut self, m: Measurement, observed_at_ms: u128)
        ensures
            final(self)@ == GaugeSet::of(m, observed_at_ms),
    {
        self.gauges = GaugeSet {
            voltage: m.voltage,
            current: m.current,
            power: m.power,
            last_measured_ms: observed_at_ms,
        };
    }

    /// The current content of the slots.
    pub fn gauges(&self) -> (g: GaugeSet)
        ensures
            g == self@,
    {
        self.gauges
    }
}

} // verus!
