//! The coordination core of a host telemetry agent: what each sampler reports on
//! a tick, and what the dispatcher publishes for every report it takes from the
//! queue.

pub mod common;
pub mod cpu;
pub mod decimal;
pub mod dispatch;
pub mod queue;
pub mod ram;
