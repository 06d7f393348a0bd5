//! A fleet of periodic virtual users (VUs): each worker does bounded work on
//! a fixed cadence, reports its running statistics after every cycle and
//! raises an event whenever a cycle overruns its interval. One supervisor
//! takes in what the workers send, and one driver starts the fleet and
//! shuts it down.
//!
//! The library decides; whoever runs it waits, sends and spawns. `worker`,
//! `supervisor` and `driver` are state machines that are told what
//! happened and answer with what to do; `ticker`, `stats`, `event` and
//! `time` are what they are made of; `clock` reads the time; `simulation`
//! runs workers on an ideal clock.

pub mod clock;
pub mod driver;
pub mod event;
pub mod simulation;
pub mod stats;
pub mod supervisor;
pub mod ticker;
pub mod time;
pub mod worker;
