//! Core of a home-automation controller that keeps smart switches in a
//! desired on/off state according to time-of-day schedules.
//!
//! The library holds the device-control and schedule-reconciliation engine:
//! the data model for switch devices and timers, the rule deciding when a
//! timer window is active, the reconciliation step that plans the commands a
//! tick must issue, and the status bookkeeping for devices.  Network
//! transport, file persistence and the HTTP layer live outside the library
//! and hand it plain values.
use vstd::prelude::*;

pub mod config;
pub mod devices;
pub mod reconcile;
pub mod timers;
pub mod users;

verus! {

/// Path of an embedded static asset, to be resolved and served by the web
/// shell around the library.
pub struct StaticFile<T>(pub T);

} // verus!
