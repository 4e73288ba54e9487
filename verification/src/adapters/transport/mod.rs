//! The boundary between the runtime and a byte transport.

use vstd::prelude::*;
use crate::domain::events::{TransportCommand, TransportEvent};

pub mod serial;

verus! {

#[derive(Debug, Clone, Copy, PartialEq, Eq, Structural)]
pub enum TransportSendFailure {
    Backpressure,
    Closed,
    Failed,
}

/// A refused send; the command is handed back so it can be retried.
#[derive(Debug, Clone, PartialEq, Eq)]
pub struct TransportSendError {
    pub failure: TransportSendFailure,
    pub command: TransportCommand,
    pub message: String,
}

/// Narrow lifecycle and routing boundary shared by real and fake transports.
///
/// Implementations decide every outcome; the runtime is verified for each of them.
pub trait Transport {
    type Error;

    fn start(&mut self) -> Result<(), Self::Error>;

    fn send(&mut self, command: TransportCommand) -> Result<(), TransportSendError>;

    fn try_recv(&mut self) -> Result<Option<TransportEvent>, Self::Error>;

    fn shutdown(&mut self) -> Result<(), Self::Error>;

    fn join(&mut self) -> Result<(), Self::Error>;

    /// A human-readable description of an error of this transport.
    fn error_message(error: &Self::Error) -> String;
}

} // verus!
