//! Integrations with external systems: transports, audio and tape files.

pub mod audio;
pub mod sound_library;
pub mod transport;
