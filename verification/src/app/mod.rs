//! Application composition: the runtime pipeline, reader scheduling and settings.

pub mod config_controller;
pub mod paper_tape;
pub mod startup;
mod runtime;

pub use runtime::{
    AppRuntime, ConnectionState, ImmediateTransmit, PumpStatus, RuntimeError, RuntimeEvent,
    RuntimeState, RuntimeView, Scheduler, MAX_TICK_ROUNDS, is_transmit, is_connected,
    lifecycle_rank, external_work_cleared,
};
