//! Runtime-independent contracts between the application, throttle, and transports.

use vstd::prelude::*;

verus! {

/// Whether keyboard/application data is sent to a transport or echoed locally.
#[derive(Debug, Clone, Copy, PartialEq, Eq, Structural)]
pub enum CommunicationMode {
    Line,
    Local,
}

/// Whether byte pacing is active.
#[derive(Debug, Clone, Copy, PartialEq, Eq, Structural)]
pub enum ThrottleMode {
    Throttled,
    Unthrottled,
}

/// Independently paced data flows.
#[derive(Debug, Clone, Copy, PartialEq, Eq, Structural)]
pub enum DataFlow {
    Tx,
    Rx,
    Loopback,
}

/// Commands originating in application/device logic.
#[derive(Debug, Clone, PartialEq, Eq)]
pub enum ApplicationCommand {
    Transmit(Vec<u8>),
    SetCommunicationMode(CommunicationMode),
    SetThrottleMode(ThrottleMode),
    SetTxRate(i64),
    SetRxRate(i64),
    SetPrinterEnabled(bool),
}

/// Commands a transport adapter consumes in order.
#[derive(Debug, Clone, PartialEq, Eq)]
pub enum TransportCommand {
    Send(Vec<u8>),
}

/// Events a transport adapter may produce.
#[derive(Debug, Clone, PartialEq, Eq)]
pub enum TransportEvent {
    Received(Vec<u8>),
    Failed { operation: TransportOperation, message: String },
}

#[derive(Debug, Clone, Copy, PartialEq, Eq, Structural)]
pub enum TransportOperation {
    Read,
    Write,
}

/// Observable output after routing and pacing.
#[derive(Debug, Clone, PartialEq, Eq)]
pub enum ThrottleOutput {
    ToTransport(TransportCommand),
    ToApplication(Vec<u8>),
}

} // verus!
