//! ASR-33 teletype emulator: terminal, paper tape, pacing and runtime logic.

/// Domain and emulation logic, independent of GUI and runtime libraries.
pub mod domain;

/// Integrations with external systems such as transports and audio.
pub mod adapters;

/// Application composition and lifecycle.
pub mod app;

/// Small text and byte-buffer helpers.
pub mod util;

/// The user-interface policy of the windowing front end.
pub mod ui;
