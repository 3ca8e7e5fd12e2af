//! Demand-driven CO2 measurement.
//!
//! A scrape asks for a reading by firing a coalescing trigger and then waits
//! for the next value that the sensing worker publishes. The worker owns the
//! sensor, polls it under a bounded retry policy once per trigger and
//! publishes what came of it, be it a reading, a timeout or a sensor fault.

pub mod api;
pub mod worker;
