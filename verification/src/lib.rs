//! Core of an exporter that watches one wireless power meter and republishes
//! its telemetry as gauges.
//!
//! The crate holds the decisions only: decoding the advertisement payload,
//! tracking whether the target device has been subscribed to, dispatching each
//! event, and keeping the last observed values. Waiting on the radio and
//! serving the gauges are left to the program around it.

pub mod btwatch2;
pub mod clock;
pub mod event;
pub mod exporter;
pub mod identity;
pub mod sink;
pub mod trace;
pub mod tracker;
