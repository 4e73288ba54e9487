//! Deterministic emulation state machines.

pub mod time;
pub mod audio;
pub mod config;
pub mod config_store;
pub mod events;
pub mod paper_tape;
pub mod terminal;
pub mod throttle;
