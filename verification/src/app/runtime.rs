//! Synchronous composition of transport, throttle, and terminal.

use vstd::prelude::*;
use std::collections::VecDeque;
use crate::adapters::transport::{Transport, TransportSendError, TransportSendFailure};
use crate::domain::events::{
    ApplicationCommand, CommunicationMode, DataFlow, ThrottleMode, ThrottleOutput, TransportCommand,
    TransportEvent, TransportOperation,
};
use crate::domain::terminal::{
    CharacterEvent, Terminal, TerminalError, TerminalOptions, TerminalView, receive,
    lemma_receive_failure,
};
use crate::domain::throttle::{
    DataThrottle, ThrottleConfig, ThrottleStep, ThrottleView, EnqueueOutcome, enqueue_tx,
    enqueue_rx, set_communication_mode, FlowView, StepView, step_view, poll_flow, command_effect,
    command_data, flatten_chunks, pending_bytes, lemma_poll_conserves_bytes, activate,
    lemma_unthrottled_poll_flushes_chunk,
};
use crate::domain::time::Duration;
use crate::util::{empty_string, push_chars};

verus! {

/// Rounds of work one tick performs before it yields.
pub const MAX_TICK_ROUNDS: usize = 32;

/// Source of time and of waiting for the runtime.
pub trait Scheduler {
    fn now(&self) -> Duration;

    fn wait(&mut self, duration: Duration);
}

#[derive(Debug, Clone, Copy, PartialEq, Eq, Structural)]
pub enum RuntimeState {
    Created,
    Running,
    Shutdown,
    Joined,
}

/// Order of the lifecycle: a runtime never returns to an earlier state.
pub open spec fn lifecycle_rank(state: RuntimeState) -> int {
    match state {
        RuntimeState::Created => 0,
        RuntimeState::Running => 1,
        RuntimeState::Shutdown => 2,
        RuntimeState::Joined => 3,
    }
}

#[derive(Debug, Clone, PartialEq, Eq)]
pub enum ConnectionState {
    Disconnected,
    Connected,
    Failed { message: String },
}

#[derive(Debug, Clone, PartialEq, Eq)]
pub enum RuntimeEvent {
    ConnectionFailed(String),
    TransportFailed { operation: TransportOperation, message: String },
    TerminalForwarded(Vec<u8>),
}

/// The answer to an immediate transmit: taken, or handed back with the reason.
#[derive(Debug, Clone, PartialEq, Eq)]
pub enum ImmediateTransmit {
    Accepted,
    Backpressured(Vec<u8>),
    Disconnected(Vec<u8>),
}

#[derive(Debug, Clone, Copy, PartialEq, Eq, Structural)]
pub enum PumpStatus {
    Idle,
    Backpressured,
    Wait(Duration),
    WorkRemaining,
}

enum FlushStatus {
    Empty,
    Sent,
    Backpressured,
}

#[derive(Debug)]
pub enum RuntimeError<E> {
    InvalidState(RuntimeState),
    Transport(E),
    TransportSend { failure: TransportSendFailure, message: String },
    Terminal(TerminalError),
    Disconnected,
}

pub open spec fn is_transmit(command: ApplicationCommand) -> bool {
    command is Transmit
}

/// The commands that survive when external work is discarded.
pub open spec fn keeps_when_cleared() -> spec_fn(ApplicationCommand) -> bool {
    |c: ApplicationCommand| !is_transmit(c)
}

pub open spec fn is_connected(connection: ConnectionState) -> bool {
    connection is Connected
}

/// Abstract runtime state, apart from the transport and scheduler themselves.
pub struct RuntimeView {
    pub terminal: TerminalView,
    pub throttle: ThrottleView,
    pub has_transport: bool,
    pub pending_application: Seq<ApplicationCommand>,
    pub pending_transport_event: Option<TransportEvent>,
    pub pending_transport: Seq<TransportCommand>,
    pub events: Seq<RuntimeEvent>,
    pub state: RuntimeState,
    pub connection: ConnectionState,
    pub startup_cr_pending: bool,
    pub startup_cr_consumed: bool,
    /// The commands the transport took, in the order it took them.
    pub sent: Seq<TransportCommand>,
}

impl RuntimeView {
    pub open spec fn wf(self) -> bool {
        &&& self.terminal.wf()
        &&& self.throttle.wf()
        &&& (is_connected(self.connection) ==> self.has_transport)
        &&& (self.state == RuntimeState::Created ==> !is_connected(self.connection))
        &&& (lifecycle_rank(self.state) >= 2 ==> !self.has_transport)
    }

    /// No application transmit is waiting anywhere before its destination boundary.
    pub open spec fn transmit_idle(self) -> bool {
        &&& self.throttle.transmit_idle()
        &&& self.pending_transport.len() == 0
        &&& forall|i: int| 0 <= i < self.pending_application.len() ==> !is_transmit(
            #[trigger] self.pending_application[i],
        )
    }
}

/// Every transmit queued for an external transport is gone; LOCAL loopback, RX and
/// terminal state are kept.
pub open spec fn external_work_cleared(before: RuntimeView, after: RuntimeView) -> bool {
    &&& after.throttle == (ThrottleView {
        tx: FlowView { queue: Seq::empty(), active: None, ..before.throttle.tx },
        ..before.throttle
    })
    &&& after.pending_transport.len() == 0
    &&& after.pending_transport_event is None
    &&& after.pending_application == before.pending_application.filter(keeps_when_cleared())
    &&& after.terminal == before.terminal
}

/// What running work may change: the lifecycle state and the startup carriage-return
/// flags stay, events are only appended, and no connection is made; a connection
/// may only be lost, with its transport.
pub open spec fn within_running_work(before: RuntimeView, after: RuntimeView) -> bool {
    &&& after.state == before.state
    &&& before.events.len() <= after.events.len()
    &&& forall|i: int| 0 <= i < before.events.len() ==> #[trigger] after.events[i] == before.events[i]
    &&& (is_connected(after.connection) ==> is_connected(before.connection) && after.has_transport
        == before.has_transport)
    &&& (after.has_transport ==> before.has_transport)
    &&& after.startup_cr_pending == before.startup_cr_pending
    &&& after.startup_cr_consumed == before.startup_cr_consumed
    &&& before.sent.len() <= after.sent.len()
    &&& forall|i: int| 0 <= i < before.sent.len() ==> #[trigger] after.sent[i] == before.sent[i]
}

/// The runtime after losing its connection with `message`: external work is
/// discarded, the transport is released and the failure becomes the connection state.
pub open spec fn connection_lost(v: RuntimeView, message: String) -> RuntimeView {
    RuntimeView { connection: ConnectionState::Failed { message }, ..released(v) }
}

/// The runtime with its external work discarded and its transport released.
pub open spec fn released(v: RuntimeView) -> RuntimeView {
    RuntimeView {
        throttle: ThrottleView {
            tx: FlowView { queue: Seq::empty(), active: None, ..v.throttle.tx },
            ..v.throttle
        },
        has_transport: false,
        pending_application: v.pending_application.filter(keeps_when_cleared()),
        pending_transport_event: None,
        pending_transport: Seq::empty(),
        ..v
    }
}

/// A runtime once shut down: nothing is queued, no transport is held and it is
/// disconnected. A runtime already shut down or joined stays as it is.
pub open spec fn shut_down(v: RuntimeView) -> RuntimeView {
    if v.state == RuntimeState::Shutdown || v.state == RuntimeState::Joined {
        v
    } else {
        RuntimeView {
            state: RuntimeState::Shutdown,
            pending_application: Seq::empty(),
            connection: ConnectionState::Disconnected,
            ..released(v)
        }
    }
}

/// The runtime after one application command: printer commands reach the terminal,
/// all others the throttle.
pub open spec fn command_applied(v: RuntimeView, command: ApplicationCommand) -> RuntimeView {
    match command {
        ApplicationCommand::SetPrinterEnabled(enabled) => RuntimeView {
            terminal: TerminalView { printing: enabled, ..v.terminal },
            ..v
        },
        _ => RuntimeView { throttle: command_effect(v.throttle, command).0, ..v },
    }
}

/// Whether `command` is taken; only a transmit into a full queue is refused.
pub open spec fn command_taken(v: RuntimeView, command: ApplicationCommand) -> bool {
    command_effect(v.throttle, command).1 is Ok
}

/// The bytes a transport command carries.
pub open spec fn command_bytes(command: TransportCommand) -> Seq<u8> {
    match command {
        TransportCommand::Send(data) => data@,
    }
}

/// A send of `data` was queued behind the earlier ones; nothing else changed.
pub open spec fn queued_for_transport(before: RuntimeView, data: Seq<u8>, after: RuntimeView) -> bool {
    &&& after == (RuntimeView { pending_transport: after.pending_transport, ..before })
    &&& after.pending_transport.len() == before.pending_transport.len() + 1
    &&& after.pending_transport.drop_last() == before.pending_transport
    &&& command_bytes(after.pending_transport.last()) == data
}

/// The terminal received `data` and, when there was any, it was queued as a forwarded
/// event; nothing else changed.
pub open spec fn delivered_to_terminal(before: RuntimeView, data: Seq<u8>, after: RuntimeView) -> bool {
    &&& receive(before.terminal, data) == Ok::<TerminalView, TerminalError>(after.terminal)
    &&& after == (RuntimeView { terminal: after.terminal, events: after.events, ..before })
    &&& if data.len() > 0 {
        &&& after.events.len() == before.events.len() + 1
        &&& after.events.drop_last() == before.events
        &&& (after.events.last() matches RuntimeEvent::TerminalForwarded(f) && f@ == data)
    } else {
        after.events == before.events
    }
}

/// The terminal refused `data` with `error`; only the terminal may have changed.
pub open spec fn refused_by_terminal(
    before: RuntimeView,
    data: Seq<u8>,
    error: TerminalError,
    after: RuntimeView,
) -> bool {
    &&& receive(before.terminal, data) == Err::<TerminalView, TerminalError>(error)
    &&& after == (RuntimeView { terminal: after.terminal, ..before })
}

/// Acting on a throttle step: idles and waits change nothing and are no progress,
/// dropped bytes are progress, and output goes to the transport queue or the terminal.
pub open spec fn step_outcome<E>(
    before: RuntimeView,
    s: StepView,
    result: Result<bool, RuntimeError<E>>,
    after: RuntimeView,
) -> bool {
    match s {
        StepView::Idle => result == Ok::<bool, RuntimeError<E>>(false) && after == before,
        StepView::Wait { .. } => result == Ok::<bool, RuntimeError<E>>(false) && after == before,
        StepView::Dropped { .. } => result == Ok::<bool, RuntimeError<E>>(true) && after == before,
        StepView::ToTransport { data, .. } => result == Ok::<bool, RuntimeError<E>>(true)
            && queued_for_transport(before, data, after),
        StepView::ToApplication { data, .. } => match result {
            Ok(p) => p && delivered_to_terminal(before, data, after),
            Err(e) => e matches RuntimeError::Terminal(te) && refused_by_terminal(
                before,
                data,
                te,
                after,
            ),
        },
    }
}

/// The earliest wait asked for so far, after a step that may ask for one.
pub open spec fn earliest_wait(before: Option<Duration>, s: StepView, after: Option<Duration>) -> bool {
    match s {
        StepView::Wait { nanos, .. } => after matches Some(d) && d@ == (match before {
            Some(c) => if c@ <= nanos {
                c@
            } else {
                nanos
            },
            None => nanos,
        }),
        _ => after == before,
    }
}

/// Polling one flow of the throttle at `now`: the throttle afterwards and the step.
/// Loopback is paced at the transmit rate and delivers only in LOCAL.
pub open spec fn poll_throttle(t: ThrottleView, flow: DataFlow, now: nat) -> (ThrottleView, StepView) {
    match flow {
        DataFlow::Tx => {
            let line = t.communication == CommunicationMode::Line;
            let (f, s) = poll_flow(t.tx, DataFlow::Tx, t.tx_rate_cps, t.mode, now, line);
            (ThrottleView { tx: f, ..t }, s)
        },
        DataFlow::Loopback => {
            let local = t.communication == CommunicationMode::Local;
            let (f, s) = poll_flow(t.loopback, DataFlow::Loopback, t.tx_rate_cps, t.mode, now, local);
            (ThrottleView { loopback: f, ..t }, s)
        },
        DataFlow::Rx => {
            let line = t.communication == CommunicationMode::Line;
            let (f, s) = poll_flow(t.rx, DataFlow::Rx, t.rx_rate_cps, t.mode, now, line);
            (ThrottleView { rx: f, ..t }, s)
        },
    }
}

/// The runtime after it took `event` from the transport side: received bytes go to the
/// RX queue or, when it is full, wait as the pending event; a failure drops the
/// connection after recording it.
pub open spec fn transport_event_taken(
    v: RuntimeView,
    event: TransportEvent,
    after: RuntimeView,
    progressed: bool,
) -> bool {
    match event {
        TransportEvent::Received(data) => {
            let (t, outcome) = enqueue_rx(v.throttle, data@);
            if outcome is Ok {
                progressed && after == (RuntimeView { throttle: t, ..v })
            } else {
                &&& !progressed
                &&& after == (RuntimeView { pending_transport_event: after.pending_transport_event, ..v })
                &&& (after.pending_transport_event matches Some(TransportEvent::Received(kept))
                    && kept@ == data@)
            }
        },
        TransportEvent::Failed { operation, message } => progressed && after == connection_lost(
            RuntimeView {
                events: v.events.push(RuntimeEvent::TransportFailed { operation, message }),
                ..v
            },
            message,
        ),
    }
}

/// The runtime after the transport failed when asked for an event.
pub open spec fn receive_failed(v: RuntimeView, message: String) -> RuntimeView {
    connection_lost(
        RuntimeView { events: v.events.push(RuntimeEvent::ConnectionFailed(message)), ..v },
        message,
    )
}

/// The runtime once a transport started: it is the connection, and an armed startup
/// carriage return is queued (in LINE; in LOCAL it is simply used up). A carriage
/// return refused by a full queue stays armed.
pub open spec fn connected(v: RuntimeView) -> RuntimeView {
    let due = v.startup_cr_pending && !v.startup_cr_consumed;
    let line = v.throttle.communication == CommunicationMode::Line;
    let (t, outcome) = enqueue_tx(v.throttle, seq![0x0du8]);
    let sent = due && (!line || outcome is Ok);
    RuntimeView {
        has_transport: true,
        connection: ConnectionState::Connected,
        throttle: if due && line {
            t
        } else {
            v.throttle
        },
        startup_cr_pending: if sent {
            false
        } else {
            v.startup_cr_pending
        },
        startup_cr_consumed: if sent {
            true
        } else {
            v.startup_cr_consumed
        },
        ..v
    }
}

/// The runtime after a transport failed to start: external work is discarded, the
/// failure is the connection state and is queued as an event with the same text.
pub open spec fn connect_failed(v: RuntimeView, message: String) -> RuntimeView {
    RuntimeView {
        throttle: ThrottleView {
            tx: FlowView { queue: Seq::empty(), active: None, ..v.throttle.tx },
            ..v.throttle
        },
        pending_application: v.pending_application.filter(keeps_when_cleared()),
        pending_transport_event: None,
        pending_transport: Seq::empty(),
        connection: ConnectionState::Failed { message },
        events: v.events.push(RuntimeEvent::ConnectionFailed(message)),
        ..v
    }
}

/// The runtime after the startup commands were applied in order; each refused one is
/// queued behind the commands already waiting.
pub open spec fn commands_applied(v: RuntimeView, commands: Seq<ApplicationCommand>) -> RuntimeView
    decreases commands.len(),
{
    if commands.len() == 0 {
        v
    } else {
        let w = commands_applied(v, commands.drop_last());
        let c = commands.last();
        if command_taken(w, c) {
            command_applied(w, c)
        } else {
            RuntimeView {
                pending_application: w.pending_application.push(c),
                ..command_applied(w, c)
            }
        }
    }
}

/// Starting a created runtime: the commands are applied, the runtime runs, and a
/// transport given at construction is connected, which only that transport can refuse.
pub open spec fn started<E>(
    v: RuntimeView,
    commands: Seq<ApplicationCommand>,
    result: Result<(), RuntimeError<E>>,
    after: RuntimeView,
) -> bool {
    let running = RuntimeView {
        state: RuntimeState::Running,
        has_transport: false,
        ..commands_applied(v, commands)
    };
    if v.has_transport {
        match result {
            Ok(()) => after == connected(running),
            Err(e) => e is Transport && exists|message: String|
                after == #[trigger] connect_failed(running, message),
        }
    } else {
        result is Ok && after == running
    }
}

/// The terminal's refusal of unusable options.
pub open spec fn options_error(options: TerminalOptions) -> TerminalError {
    if options.columns == 0 {
        TerminalError::ZeroColumns
    } else {
        TerminalError::HistoryCapacityOverflow
    }
}

/// A runtime as constructed: created, disconnected, in LINE, with nothing queued, a
/// fresh terminal of the requested size and the configured rates.
pub open spec fn freshly_built(r: RuntimeView, o: TerminalOptions, c: ThrottleConfig) -> bool {
    &&& r.wf()
    &&& r.state == RuntimeState::Created
    &&& r.connection == ConnectionState::Disconnected
    &&& r.pending_application.len() == 0
    &&& r.pending_transport.len() == 0
    &&& r.pending_transport_event is None
    &&& r.events.len() == 0
    &&& !r.startup_cr_pending
    &&& !r.startup_cr_consumed
    &&& r.sent.len() == 0
    &&& r.terminal.width == o.columns
    &&& r.terminal.height == o.rows
    &&& r.terminal.column == 0
    &&& r.terminal.line_number == 0
    &&& r.terminal.printing
    &&& r.terminal.events.len() == 0
    &&& r.throttle.tx_rate_cps == c.tx_rate_cps
    &&& r.throttle.rx_rate_cps == c.rx_rate_cps
    &&& r.throttle.communication == CommunicationMode::Line
    &&& r.throttle.mode == ThrottleMode::Throttled
    &&& r.throttle.tx.capacity == c.tx_queue_capacity
    &&& r.throttle.rx.capacity == c.rx_queue_capacity
    &&& r.throttle.tx.is_idle()
    &&& r.throttle.rx.is_idle()
    &&& r.throttle.loopback.is_idle()
}

/// The state of the flow that `flow` names.
pub open spec fn flow_state(t: ThrottleView, flow: DataFlow) -> FlowView {
    match flow {
        DataFlow::Tx => t.tx,
        DataFlow::Loopback => t.loopback,
        DataFlow::Rx => t.rx,
    }
}

/// Nothing is left to do: no command waits, every flow is idle, no received chunk is
/// held back, and with a transport no send is waiting for it.
pub open spec fn quiescent(v: RuntimeView) -> bool {
    &&& v.pending_application.len() == 0
    &&& v.pending_transport_event is None
    &&& v.throttle.tx.is_idle()
    &&& v.throttle.loopback.is_idle()
    &&& v.throttle.rx.is_idle()
    &&& (v.has_transport ==> v.pending_transport.len() == 0)
}

/// The printer is off and no waiting command turns it on, so the terminal cannot
/// refuse anything.
pub open spec fn quiet_printer(v: RuntimeView) -> bool {
    &&& !v.terminal.printing
    &&& forall|i: int|
        0 <= i < v.pending_application.len() ==> #[trigger] v.pending_application[i]
            != ApplicationCommand::SetPrinterEnabled(true)
}

/// After an ingress step that made no progress: any waiting command is held back by a
/// full TX or loopback queue, a held-back chunk by a full RX queue, and with a
/// transport no send waits.
pub open spec fn stalled(v: RuntimeView) -> bool {
    &&& (v.pending_application.len() == 0 || !v.throttle.tx.is_idle()
        || !v.throttle.loopback.is_idle())
    &&& (v.pending_transport_event is None || !v.throttle.rx.is_idle())
    &&& (v.has_transport ==> v.pending_transport.len() == 0)
}

/// A poll reports nothing to do exactly when its flow is idle, and then changes nothing.
proof fn lemma_poll_idle(t: ThrottleView, flow: DataFlow, now: nat)
    ensures
        (poll_throttle(t, flow, now).1 is Idle) == flow_state(t, flow).is_idle(),
        poll_throttle(t, flow, now).1 is Idle ==> poll_throttle(t, flow, now).0 == t,
{
}

/// Discarding transmits keeps a command that was absent absent.
proof fn lemma_filter_keeps_absent(pa: Seq<ApplicationCommand>, c: ApplicationCommand)
    requires
        forall|i: int| 0 <= i < pa.len() ==> #[trigger] pa[i] != c,
    ensures
        forall|i: int|
            0 <= i < pa.filter(keeps_when_cleared()).len() ==> #[trigger] pa.filter(
                keeps_when_cleared(),
            )[i] != c,
    decreases pa.len(),
{
    if pa.len() > 0 {
        let rest = pa.drop_last();
        assert forall|i: int| 0 <= i < rest.len() implies #[trigger] rest[i] != c by {
            assert(rest[i] == pa[i]);
        }
        lemma_filter_keeps_absent(rest, c);
        assert(rest.push(pa.last()) =~= pa);
        rest.lemma_filter_push(pa.last(), keeps_when_cleared());
    }
}

/// The bytes of a run of transport commands, in order.
pub open spec fn commands_bytes(commands: Seq<TransportCommand>) -> Seq<u8>
    decreases commands.len(),
{
    if commands.len() == 0 {
        Seq::empty()
    } else {
        commands_bytes(commands.drop_last()) + command_bytes(commands.last())
    }
}

/// The bytes that the transmits among `commands` carry, in order.
pub open spec fn transmitted_bytes(commands: Seq<ApplicationCommand>) -> Seq<u8>
    decreases commands.len(),
{
    if commands.len() == 0 {
        Seq::empty()
    } else {
        transmitted_bytes(commands.drop_last()) + command_data(commands.last())
    }
}

/// Every byte on its way out through the transport, oldest first: taken by the
/// transport, queued for it, being paced by the throttle, and waiting as transmits.
pub open spec fn outbound(v: RuntimeView) -> Seq<u8> {
    commands_bytes(v.sent) + commands_bytes(v.pending_transport) + pending_bytes(v.throttle.tx)
        + transmitted_bytes(v.pending_application)
}

/// Application bytes take the LINE route, and no waiting command changes the route.
pub open spec fn line_route(v: RuntimeView) -> bool {
    &&& v.throttle.communication == CommunicationMode::Line
    &&& forall|i: int|
        0 <= i < v.pending_application.len() ==> !(#[trigger] v.pending_application[i] is SetCommunicationMode)
}

proof fn lemma_commands_bytes_front(commands: Seq<TransportCommand>)
    requires
        commands.len() > 0,
    ensures
        commands_bytes(commands) == command_bytes(commands[0]) + commands_bytes(commands.drop_first()),
    decreases commands.len(),
{
    if commands.len() == 1 {
        assert(commands.drop_last() =~= Seq::<TransportCommand>::empty());
        assert(commands.drop_first() =~= Seq::<TransportCommand>::empty());
        assert(commands_bytes(commands) =~= command_bytes(commands[0]) + commands_bytes(
            commands.drop_first(),
        ));
    } else {
        lemma_commands_bytes_front(commands.drop_last());
        assert(commands.drop_first().drop_last() =~= commands.drop_last().drop_first());
        assert(commands_bytes(commands) =~= command_bytes(commands[0]) + commands_bytes(
            commands.drop_first(),
        ));
    }
}

proof fn lemma_commands_bytes_push(commands: Seq<TransportCommand>, c: TransportCommand)
    ensures
        commands_bytes(commands.push(c)) == commands_bytes(commands) + command_bytes(c),
{
    assert(commands.push(c).drop_last() =~= commands);
}

proof fn lemma_transmitted_bytes_front(commands: Seq<ApplicationCommand>)
    requires
        commands.len() > 0,
    ensures
        transmitted_bytes(commands) == command_data(commands[0]) + transmitted_bytes(
            commands.drop_first(),
        ),
    decreases commands.len(),
{
    if commands.len() == 1 {
        assert(commands.drop_last() =~= Seq::<ApplicationCommand>::empty());
        assert(commands.drop_first() =~= Seq::<ApplicationCommand>::empty());
        assert(transmitted_bytes(commands) =~= command_data(commands[0]) + transmitted_bytes(
            commands.drop_first(),
        ));
    } else {
        lemma_transmitted_bytes_front(commands.drop_last());
        assert(commands.drop_first().drop_last() =~= commands.drop_last().drop_first());
        assert(transmitted_bytes(commands) =~= command_data(commands[0]) + transmitted_bytes(
            commands.drop_first(),
        ));
    }
}

proof fn lemma_flatten_push(chunks: Seq<Seq<u8>>, chunk: Seq<u8>)
    ensures
        flatten_chunks(chunks.push(chunk)) == flatten_chunks(chunks) + chunk,
    decreases chunks.len(),
{
    if chunks.len() == 0 {
        assert(chunks.push(chunk).drop_first() =~= Seq::<Seq<u8>>::empty());
        assert(chunks.push(chunk)[0] == chunk);
        assert(flatten_chunks(chunks.push(chunk).drop_first()) == Seq::<u8>::empty());
        assert(flatten_chunks(chunks) == Seq::<u8>::empty());
        assert(flatten_chunks(chunks.push(chunk)) =~= flatten_chunks(chunks) + chunk);
    } else {
        lemma_flatten_push(chunks.drop_first(), chunk);
        assert(chunks.push(chunk).drop_first() =~= chunks.drop_first().push(chunk));
        assert(chunks.push(chunk)[0] == chunks[0]);
        assert(flatten_chunks(chunks.push(chunk)) == chunks[0] + flatten_chunks(
            chunks.drop_first().push(chunk),
        ));
        assert(flatten_chunks(chunks) == chunks[0] + flatten_chunks(chunks.drop_first()));
        assert(flatten_chunks(chunks.push(chunk)) =~= flatten_chunks(chunks) + chunk);
    }
}

/// Applying the first waiting command on the LINE route moves a transmit's bytes from
/// the application queue to the end of the throttle's TX queue, and keeps the route.
proof fn lemma_applied_keeps_outbound(v: RuntimeView)
    requires
        v.wf(),
        line_route(v),
        v.pending_application.len() > 0,
        command_taken(v, v.pending_application[0]),
    ensures
        ({
            let rest = RuntimeView {
                pending_application: v.pending_application.drop_first(),
                ..v
            };
            let after = command_applied(rest, v.pending_application[0]);
            outbound(after) == outbound(v) && line_route(after)
        }),
{
    let c = v.pending_application[0];
    let rest = RuntimeView { pending_application: v.pending_application.drop_first(), ..v };
    let after = command_applied(rest, c);
    lemma_transmitted_bytes_front(v.pending_application);
    assert(!(c is SetCommunicationMode));
    match c {
        ApplicationCommand::Transmit(data) => {
            if data@.len() > 0 {
                lemma_flatten_push(v.throttle.tx.queue, data@);
            }
        },
        _ => {},
    }
    assert(outbound(after) =~= outbound(v));
    assert forall|i: int| 0 <= i < after.pending_application.len() implies !(
    #[trigger] after.pending_application[i] is SetCommunicationMode) by {
        assert(after.pending_application[i] == v.pending_application[i + 1]);
    }
}

/// Handing the first queued command to the transport moves its bytes from the
/// transport queue to the end of what the transport took.
proof fn lemma_sent_keeps_outbound(v: RuntimeView)
    requires
        v.pending_transport.len() > 0,
    ensures
        outbound(
            RuntimeView {
                pending_transport: v.pending_transport.drop_first(),
                sent: v.sent.push(v.pending_transport[0]),
                ..v
            },
        ) == outbound(v),
{
    lemma_commands_bytes_front(v.pending_transport);
    lemma_commands_bytes_push(v.sent, v.pending_transport[0]);
    assert(outbound(
        RuntimeView {
            pending_transport: v.pending_transport.drop_first(),
            sent: v.sent.push(v.pending_transport[0]),
            ..v
        },
    ) =~= outbound(v));
}

/// Work left in one flow: a queued chunk weighs more than the active one, which a poll
/// hands on.
pub open spec fn flow_work(f: FlowView) -> nat {
    3 * f.queue.len() + if f.active is Some {
        2nat
    } else {
        0nat
    }
}

/// A measure of the work left in the runtime. Every step that makes progress without a
/// transport and without pacing lowers it: a command becomes at most a queued chunk, a
/// chunk leaves its flow whole, and a queued send is taken or dropped.
pub open spec fn work(v: RuntimeView) -> nat {
    4 * v.pending_application.len() + (if v.pending_transport_event is Some {
        4nat
    } else {
        0nat
    }) + flow_work(v.throttle.tx) + flow_work(v.throttle.loopback) + flow_work(v.throttle.rx)
        + v.pending_transport.len()
}

/// Work that no outside call decides: no transport, no pacing now or from a waiting
/// command, and a printer that cannot refuse anything.
pub open spec fn free_running(v: RuntimeView) -> bool {
    &&& !v.has_transport
    &&& quiet_printer(v)
    &&& v.throttle.mode == ThrottleMode::Unthrottled
    &&& forall|i: int|
        0 <= i < v.pending_application.len() ==> #[trigger] v.pending_application[i]
            != ApplicationCommand::SetThrottleMode(ThrottleMode::Throttled)
}

/// Applying a command lowers the work: the command goes, and at most one chunk comes.
proof fn lemma_applied_work(v: RuntimeView)
    requires
        v.pending_application.len() > 0,
    ensures
        ({
            let rest = RuntimeView {
                pending_application: v.pending_application.drop_first(),
                ..v
            };
            work(command_applied(rest, v.pending_application[0])) + 1 <= work(v)
        }),
{
}

/// Without pacing a poll never waits; an idle poll changes nothing, and any other one
/// moves a whole chunk out of its flow.
proof fn lemma_unthrottled_poll_work(t: ThrottleView, flow: DataFlow, now: nat)
    requires
        t.wf(),
        t.mode == ThrottleMode::Unthrottled,
    ensures
        ({
            let (t2, s) = poll_throttle(t, flow, now);
            &&& !(s is Wait)
            &&& s is Idle ==> t2 == t
            &&& !(s is Idle) ==> flow_work(flow_state(t2, flow)) + 2 <= flow_work(
                flow_state(t, flow),
            )
        }),
{
    let f = flow_state(t, flow);
    let rate = match flow {
        DataFlow::Rx => t.rx_rate_cps,
        _ => t.tx_rate_cps,
    };
    let deliver = match flow {
        DataFlow::Loopback => t.communication == CommunicationMode::Local,
        _ => t.communication == CommunicationMode::Line,
    };
    lemma_poll_idle(t, flow, now);
    if activate(f, rate).active is Some {
        lemma_unthrottled_poll_flushes_chunk(f, flow, rate, now, deliver);
    }
}

/// What the transport took always leads what is outbound.
proof fn lemma_sent_leads_outbound(v: RuntimeView)
    ensures
        commands_bytes(v.sent).is_prefix_of(outbound(v)),
{
    let a = commands_bytes(v.sent);
    assert(a =~= outbound(v).subrange(0, a.len() as int));
}

/// With nothing left to do, every outbound byte has been taken by the transport.
proof fn lemma_quiescent_outbound(v: RuntimeView)
    requires
        quiescent(v),
        v.has_transport,
    ensures
        outbound(v) == commands_bytes(v.sent),
{
    assert(v.pending_transport =~= Seq::<TransportCommand>::empty());
    assert(v.pending_application =~= Seq::<ApplicationCommand>::empty());
    assert(v.throttle.tx.queue =~= Seq::<Seq<u8>>::empty());
    assert(pending_bytes(v.throttle.tx) =~= Seq::<u8>::empty());
    assert(outbound(v) =~= commands_bytes(v.sent));
}

pub struct AppRuntime<T: Transport, S: Scheduler> {
    terminal: Terminal,
    throttle: DataThrottle,
    transport: Option<T>,
    scheduler: S,
    pending_application: VecDeque<ApplicationCommand>,
    pending_transport_event: Option<TransportEvent>,
    pending_transport: VecDeque<TransportCommand>,
    events: VecDeque<RuntimeEvent>,
    state: RuntimeState,
    connection: ConnectionState,
    startup_cr_pending: bool,
    startup_cr_consumed: bool,
    sent: Ghost<Seq<TransportCommand>>,
}

impl<T: Transport, S: Scheduler> View for AppRuntime<T, S> {
    type V = RuntimeView;

    closed spec fn view(&self) -> RuntimeView {
        RuntimeView {
            terminal: self.terminal@,
            throttle: self.throttle@,
            has_transport: self.transport is Some,
            pending_application: self.pending_application@,
            pending_transport_event: self.pending_transport_event,
            pending_transport: self.pending_transport@,
            events: self.events@,
            state: self.state,
            connection: self.connection,
            startup_cr_pending: self.startup_cr_pending,
            startup_cr_consumed: self.startup_cr_consumed,
            sent: self.sent@,
        }
    }
}

impl<T: Transport, S: Scheduler> AppRuntime<T, S> {
    /// The scheduler the runtime owns.
    pub closed spec fn scheduler_value(&self) -> S {
        self.scheduler
    }

    fn assemble(
        terminal_options: TerminalOptions,
        throttle_config: ThrottleConfig,
        transport: Option<T>,
        scheduler: S,
    ) -> (result: Result<Self, RuntimeError<T::Error>>)
        ensures
            match result {
                Ok(r) => r@.has_transport == transport is Some && freshly_built(
                    r@,
                    terminal_options,
                    throttle_config,
                ),
                Err(e) => e == RuntimeError::<T::Error>::Terminal(
                    options_error(terminal_options),
                ),
            },
            result is Err <==> (terminal_options.columns == 0 || terminal_options.rows
                + terminal_options.scrollback > usize::MAX || terminal_options.rows
                + terminal_options.scrollback == 0),
    {
        let terminal = match Terminal::new(terminal_options) {
            Ok(t) => t,
            Err(e) => {
                return Err(RuntimeError::Terminal(e));
            },
        };
        let initial_time = scheduler.now();
        let r = AppRuntime {
            terminal,
            throttle: DataThrottle::new(throttle_config, initial_time),
            transport,
            scheduler,
            pending_application: VecDeque::new(),
            pending_transport_event: None,
            pending_transport: VecDeque::new(),
            events: VecDeque::new(),
            state: RuntimeState::Created,
            connection: ConnectionState::Disconnected,
            startup_cr_pending: false,
            startup_cr_consumed: false,
            sent: Ghost(Seq::empty()),
        };
        Ok(r)
    }

    /// A runtime that will connect `transport` when it starts.
    pub fn new(
        transport: T,
        scheduler: S,
        terminal_options: TerminalOptions,
        throttle_config: ThrottleConfig,
    ) -> (result: Result<Self, RuntimeError<T::Error>>)
        ensures
            match result {
                Ok(r) => r@.has_transport && freshly_built(r@, terminal_options, throttle_config),
                Err(e) => e == RuntimeError::<T::Error>::Terminal(
                    options_error(terminal_options),
                ),
            },
            result is Err <==> (terminal_options.columns == 0 || terminal_options.rows
                + terminal_options.scrollback > usize::MAX || terminal_options.rows
                + terminal_options.scrollback == 0),
    {
        Self::assemble(terminal_options, throttle_config, Some(transport), scheduler)
    }

    /// A runtime that starts without any transport; one is connected explicitly later.
    pub fn new_disconnected(
        scheduler: S,
        terminal_options: TerminalOptions,
        throttle_config: ThrottleConfig,
    ) -> (result: Result<Self, RuntimeError<T::Error>>)
        ensures
            match result {
                Ok(r) => !r@.has_transport && freshly_built(r@, terminal_options, throttle_config),
                Err(e) => e == RuntimeError::<T::Error>::Terminal(
                    options_error(terminal_options),
                ),
            },
            result is Err <==> (terminal_options.columns == 0 || terminal_options.rows
                + terminal_options.scrollback > usize::MAX || terminal_options.rows
                + terminal_options.scrollback == 0),
    {
        Self::assemble(terminal_options, throttle_config, None, scheduler)
    }

    pub fn start(&mut self) -> (result: Result<(), RuntimeError<T::Error>>)
        requires
            old(self)@.wf(),
        ensures
            final(self)@.wf(),
            lifecycle_rank(old(self)@.state) <= lifecycle_rank(final(self)@.state),
            old(self)@.state == RuntimeState::Created ==> final(self)@.state == RuntimeState::Running,
            old(self)@.state == RuntimeState::Created ==> started(
                old(self)@,
                Seq::empty(),
                result,
                final(self)@,
            ),
            old(self)@.state == RuntimeState::Running ==> result is Ok && final(self)@ == old(self)@,
            (old(self)@.state == RuntimeState::Shutdown || old(self)@.state == RuntimeState::Joined)
                ==> result == Err::<(), RuntimeError<T::Error>>(
                RuntimeError::InvalidState(old(self)@.state),
            ) && final(self)@ == old(self)@,
    {
        let commands: Vec<ApplicationCommand> = Vec::new();
        assert(commands@ =~= Seq::<ApplicationCommand>::empty());
        self.start_with_initial_commands(commands)
    }

    /// Start the runtime, applying `commands` first and keeping any that were refused
    /// in order; then connect the transport given at construction, if any.
    pub fn start_with_initial_commands(&mut self, commands: Vec<ApplicationCommand>) -> (result:
        Result<(), RuntimeError<T::Error>>)
        requires
            old(self)@.wf(),
        ensures
            final(self)@.wf(),
            !old(self)@.has_transport ==> !final(self)@.has_transport && final(self)@.connection
                == old(self)@.connection,
            !old(self)@.has_transport && old(self)@.state == RuntimeState::Created ==> result is Ok,
            lifecycle_rank(old(self)@.state) <= lifecycle_rank(final(self)@.state),
            old(self)@.state == RuntimeState::Created ==> final(self)@.state == RuntimeState::Running,
            old(self)@.state == RuntimeState::Created ==> started(
                old(self)@,
                commands@,
                result,
                final(self)@,
            ),
            old(self)@.state == RuntimeState::Running ==> result is Ok && final(self)@ == old(self)@,
            (old(self)@.state == RuntimeState::Shutdown || old(self)@.state == RuntimeState::Joined)
                ==> result == Err::<(), RuntimeError<T::Error>>(
                RuntimeError::InvalidState(old(self)@.state),
            ) && final(self)@ == old(self)@,
    {
        match self.state {
            RuntimeState::Created => {},
            RuntimeState::Running => {
                return Ok(());
            },
            RuntimeState::Shutdown => {
                return Err(RuntimeError::InvalidState(RuntimeState::Shutdown));
            },
            RuntimeState::Joined => {
                return Err(RuntimeError::InvalidState(RuntimeState::Joined));
            },
        }
        let ghost connection = self@.connection;
        let ghost has_transport = self@.has_transport;
        let ghost original = commands@;
        let ghost initial = self@;
        let ghost mut i: int = 0;
        let mut commands = commands;
        while commands.len() > 0
            invariant
                self@.wf(),
                self@.state == RuntimeState::Created,
                self@.connection == connection,
                self@.has_transport == has_transport,
                0 <= i <= original.len(),
                commands@ == original.skip(i),
                self@ == commands_applied(initial, original.take(i)),
            decreases commands@.len(),
        {
            let command = commands.remove(0);
            proof {
                assert(command == original[i]);
                assert(original.take(i + 1).drop_last() =~= original.take(i));
                assert(original.skip(i + 1) =~= original.skip(i).remove(0));
            }
            match self.apply_application_command(command) {
                Ok(()) => {},
                Err(rejected) => self.pending_application.push_back(rejected),
            }
            proof {
                i = i + 1;
            }
        }
        assert(original.take(i) =~= original);
        self.state = RuntimeState::Running;
        match self.transport.take() {
            Some(transport) => self.connect(transport),
            None => Ok(()),
        }
    }

    fn require_running(&self) -> (result: Result<(), RuntimeError<T::Error>>)
        ensures
            match result {
                Ok(()) => self@.state == RuntimeState::Running,
                Err(e) => self@.state != RuntimeState::Running && e == RuntimeError::<
                    T::Error,
                >::InvalidState(self@.state),
            },
    {
        match self.state {
            RuntimeState::Running => Ok(()),
            state => Err(RuntimeError::InvalidState(state)),
        }
    }

    fn is_line_mode(&self) -> (line: bool)
        ensures
            line == (self@.throttle.communication == CommunicationMode::Line),
    {
        match self.throttle.communication_mode() {
            CommunicationMode::Line => true,
            CommunicationMode::Local => false,
        }
    }

    fn is_connected(&self) -> (connected: bool)
        ensures
            connected == is_connected(self@.connection),
    {
        match self.connection {
            ConnectionState::Connected => true,
            _ => false,
        }
    }

    /// Queue an application command for the next tick.
    ///
    /// In LINE mode without an active connection a transmit is refused outright, so no
    /// stale bytes can be replayed after a later connect.
    pub fn submit(&mut self, command: ApplicationCommand) -> (result: Result<
        (),
        RuntimeError<T::Error>,
    >)
        requires
            old(self)@.wf(),
        ensures
            final(self)@.wf(),
            old(self)@.state != RuntimeState::Running ==> result == Err::<
                (),
                RuntimeError<T::Error>,
            >(RuntimeError::InvalidState(old(self)@.state)) && final(self)@ == old(self)@,
            old(self)@.state == RuntimeState::Running && is_transmit(command)
                && old(self)@.throttle.communication == CommunicationMode::Line && !is_connected(
                old(self)@.connection,
            ) ==> result == Err::<(), RuntimeError<T::Error>>(RuntimeError::Disconnected)
                && final(self)@ == old(self)@,
            old(self)@.state == RuntimeState::Running && !(is_transmit(command)
                && old(self)@.throttle.communication == CommunicationMode::Line && !is_connected(
                old(self)@.connection,
            )) ==> result is Ok && final(self)@ == (RuntimeView {
                pending_application: old(self)@.pending_application.push(command),
                ..old(self)@
            }),
    {
        self.require_running()?;
        let transmit = match &command {
            ApplicationCommand::Transmit(_) => true,
            _ => false,
        };
        if transmit && self.is_line_mode() && !self.is_connected() {
            return Err(RuntimeError::Disconnected);
        }
        self.pending_application.push_back(command);
        Ok(())
    }

    /// Offer bytes straight to the throttle, handing them back if they cannot be taken.
    pub fn try_transmit(&mut self, data: Vec<u8>) -> (result: Result<
        ImmediateTransmit,
        RuntimeError<T::Error>,
    >)
        requires
            old(self)@.wf(),
        ensures
            final(self)@.wf(),
            old(self)@.state != RuntimeState::Running ==> result == Err::<
                ImmediateTransmit,
                RuntimeError<T::Error>,
            >(RuntimeError::InvalidState(old(self)@.state)) && final(self)@ == old(self)@,
            old(self)@.state == RuntimeState::Running && old(self)@.throttle.communication
                == CommunicationMode::Line && !is_connected(old(self)@.connection) ==> (
            match result {
                Ok(ImmediateTransmit::Disconnected(d)) => d@ == data@,
                _ => false,
            }) && final(self)@ == old(self)@,
            old(self)@.state == RuntimeState::Running && !(old(self)@.throttle.communication
                == CommunicationMode::Line && !is_connected(old(self)@.connection)) ==> {
                let (t, outcome) = enqueue_tx(old(self)@.throttle, data@);
                &&& final(self)@ == (RuntimeView { throttle: t, ..old(self)@ })
                &&& match outcome {
                    Ok(_) => result == Ok::<ImmediateTransmit, RuntimeError<T::Error>>(
                        ImmediateTransmit::Accepted,
                    ),
                    Err(_) => match result {
                        Ok(ImmediateTransmit::Backpressured(d)) => d@ == data@,
                        _ => false,
                    },
                }
            },
    {
        self.require_running()?;
        if self.is_line_mode() && !self.is_connected() {
            return Ok(ImmediateTransmit::Disconnected(data));
        }
        match self.throttle.enqueue_tx(data) {
            Ok(_) => Ok(ImmediateTransmit::Accepted),
            Err(rejected) => Ok(ImmediateTransmit::Backpressured(rejected.data)),
        }
    }

    /// Tick until nothing is ready, waiting on the scheduler whenever pacing asks for it.
    ///
    /// The number of rounds is bounded by `u64::MAX`; reaching that bound reports
    /// `WorkRemaining`.
    pub fn pump(&mut self) -> (result: Result<PumpStatus, RuntimeError<T::Error>>)
        requires
            old(self)@.wf(),
        ensures
            within_running_work(old(self)@, final(self)@),
            (result matches Err(RuntimeError::Terminal(_))) || final(self)@.wf(),
            final(self)@.state == old(self)@.state,
            old(self)@.state != RuntimeState::Running ==> result == Err::<
                PumpStatus,
                RuntimeError<T::Error>,
            >(RuntimeError::InvalidState(old(self)@.state)),
            result matches Ok(status) ==> !(status is Wait),
            result matches Ok(PumpStatus::Idle) ==> quiescent(final(self)@),
            result matches Ok(PumpStatus::Backpressured) ==> final(self)@.has_transport
                && final(self)@.pending_transport.len() > 0,
            match result {
                Err(RuntimeError::InvalidState(_)) => old(self)@.state != RuntimeState::Running,
                Err(RuntimeError::TransportSend { failure, message }) => {
                    &&& failure != TransportSendFailure::Backpressure
                    &&& old(self)@.has_transport
                    &&& !final(self)@.has_transport
                    &&& final(self)@.connection == (ConnectionState::Failed { message })
                },
                Err(RuntimeError::Terminal(e)) => e == TerminalError::LogicalLineOverflow
                    && !quiet_printer(old(self)@),
                Err(_) => false,
                Ok(_) => true,
            },
            old(self)@.state == RuntimeState::Running && !old(self)@.has_transport && quiet_printer(
                old(self)@,
            ) ==> result is Ok,
            quiet_printer(old(self)@) ==> quiet_printer(final(self)@),
            line_route(old(self)@) && final(self)@.has_transport && result is Ok && !(result matches Ok(
                PumpStatus::Backpressured,
            )) ==> outbound(final(self)@) == outbound(old(self)@) && line_route(final(self)@),
            line_route(old(self)@) && final(self)@.has_transport && (result matches Ok(
                PumpStatus::Idle,
            )) ==> commands_bytes(final(self)@.sent) == outbound(old(self)@),
            line_route(old(self)@) ==> commands_bytes(final(self)@.sent).is_prefix_of(
                outbound(old(self)@),
            ),
            !old(self)@.has_transport ==> final(self)@.sent == old(self)@.sent,
            old(self)@.state == RuntimeState::Running && free_running(old(self)@) ==> free_running(
                final(self)@,
            ) && ((result == Ok::<PumpStatus, RuntimeError<T::Error>>(PumpStatus::Idle) && quiescent(
                final(self)@,
            )) || (result == Ok::<PumpStatus, RuntimeError<T::Error>>(PumpStatus::WorkRemaining)
                && work(final(self)@) + MAX_TICK_ROUNDS * u64::MAX <= work(old(self)@))),
    {
        let mut rounds: u64 = 0;
        while rounds < u64::MAX
            invariant
                self@.wf(),
                self@.state == old(self)@.state,
                rounds > 0 ==> self@.state == RuntimeState::Running,
                within_running_work(old(self)@, self@),
                quiet_printer(old(self)@) ==> quiet_printer(self@),
                line_route(old(self)@) && self@.has_transport ==> outbound(self@) == outbound(
                    old(self)@,
                ) && line_route(self@),
                line_route(old(self)@) ==> commands_bytes(self@.sent).is_prefix_of(
                    outbound(old(self)@),
                ),
                !old(self)@.has_transport ==> self@.sent == old(self)@.sent,
                old(self)@.state == RuntimeState::Running && free_running(old(self)@)
                    ==> free_running(self@) && work(self@) + MAX_TICK_ROUNDS * rounds <= work(
                    old(self)@,
                ),
            decreases u64::MAX - rounds,
        {
            match self.tick() {
                Ok(PumpStatus::Wait(duration)) => self.scheduler.wait(duration),
                Ok(PumpStatus::WorkRemaining) => {},
                Ok(status) => {
                    proof {
                        if status is Idle && self@.has_transport {
                            lemma_quiescent_outbound(self@);
                        }
                    }
                    return Ok(status);
                },
                Err(e) => {
                    return Err(e);
                },
            }
            rounds += 1;
        }
        Ok(PumpStatus::WorkRemaining)
    }

    /// Advance all work that is ready at the scheduler's current time without blocking.
    ///
    /// Each round applies at most one queued application command, hands at most one
    /// command to the transport, takes at most one transport event (unless more
    /// application commands are waiting) and polls the TX, loopback and RX flows once.
    /// A caller may interleave commands before honoring `Wait`.
    pub fn tick(&mut self) -> (result: Result<PumpStatus, RuntimeError<T::Error>>)
        requires
            old(self)@.wf(),
        ensures
            within_running_work(old(self)@, final(self)@),
            (result matches Err(RuntimeError::Terminal(_))) || final(self)@.wf(),
            final(self)@.state == old(self)@.state,
            old(self)@.state != RuntimeState::Running ==> result == Err::<
                PumpStatus,
                RuntimeError<T::Error>,
            >(RuntimeError::InvalidState(old(self)@.state)) && final(self)@ == old(self)@,
            result matches Ok(PumpStatus::Wait(d)) ==> d@ > 20_000_000,
            result matches Ok(PumpStatus::Idle) ==> quiescent(final(self)@),
            result matches Ok(PumpStatus::Backpressured) ==> final(self)@.has_transport
                && final(self)@.pending_transport.len() > 0,
            match result {
                Err(RuntimeError::InvalidState(_)) => old(self)@.state != RuntimeState::Running,
                Err(RuntimeError::TransportSend { failure, message }) => {
                    &&& failure != TransportSendFailure::Backpressure
                    &&& old(self)@.has_transport
                    &&& !final(self)@.has_transport
                    &&& final(self)@.connection == (ConnectionState::Failed { message })
                },
                Err(RuntimeError::Terminal(e)) => e == TerminalError::LogicalLineOverflow
                    && !quiet_printer(old(self)@),
                Err(_) => false,
                Ok(_) => true,
            },
            old(self)@.state == RuntimeState::Running && !old(self)@.has_transport && quiet_printer(
                old(self)@,
            ) ==> result is Ok,
            quiet_printer(old(self)@) ==> quiet_printer(final(self)@),
            line_route(old(self)@) && final(self)@.has_transport && result is Ok && !(result matches Ok(
                PumpStatus::Backpressured,
            )) ==> outbound(final(self)@) == outbound(old(self)@) && line_route(final(self)@),
            line_route(old(self)@) && final(self)@.has_transport && (result matches Ok(
                PumpStatus::Idle,
            )) ==> commands_bytes(final(self)@.sent) == outbound(old(self)@),
            line_route(old(self)@) ==> commands_bytes(final(self)@.sent).is_prefix_of(
                outbound(old(self)@),
            ),
            !old(self)@.has_transport ==> final(self)@.sent == old(self)@.sent,
            old(self)@.state == RuntimeState::Running && free_running(old(self)@) ==> free_running(
                final(self)@,
            ) && ((result == Ok::<PumpStatus, RuntimeError<T::Error>>(PumpStatus::Idle) && quiescent(
                final(self)@,
            )) || (result == Ok::<PumpStatus, RuntimeError<T::Error>>(PumpStatus::WorkRemaining)
                && work(final(self)@) + MAX_TICK_ROUNDS <= work(old(self)@))),
    {
        match self.require_running() {
            Ok(()) => {},
            Err(e) => {
                return Err(e);
            },
        }
        let mut round: usize = 0;
        while round < MAX_TICK_ROUNDS
            invariant
                self@.wf(),
                self@.state == old(self)@.state,
                self@.state == RuntimeState::Running,
                within_running_work(old(self)@, self@),
                quiet_printer(old(self)@) ==> quiet_printer(self@),
                line_route(old(self)@) && self@.has_transport ==> outbound(self@) == outbound(
                    old(self)@,
                ) && line_route(self@),
                line_route(old(self)@) ==> commands_bytes(self@.sent).is_prefix_of(
                    outbound(old(self)@),
                ),
                !old(self)@.has_transport ==> self@.sent == old(self)@.sent,
                free_running(old(self)@) ==> free_running(self@) && work(self@) + round <= work(
                    old(self)@,
                ),
            decreases MAX_TICK_ROUNDS - round,
        {
            match self.tick_round() {
                Ok(Some(status)) => {
                    proof {
                        if status is Idle && self@.has_transport {
                            lemma_quiescent_outbound(self@);
                        }
                    }
                    return Ok(status);
                },
                Ok(None) => {},
                Err(e) => {
                    return Err(e);
                },
            }
            round += 1;
        }
        Ok(PumpStatus::WorkRemaining)
    }

    /// One round of a tick: `None` when something progressed and another round may
    /// follow, otherwise the status the tick reports.
    pub fn tick_round(&mut self) -> (result: Result<Option<PumpStatus>, RuntimeError<T::Error>>)
        requires
            old(self)@.wf(),
            old(self)@.state == RuntimeState::Running,
        ensures
            within_running_work(old(self)@, final(self)@),
            (result matches Err(RuntimeError::Terminal(_))) || final(self)@.wf(),
            final(self)@.state == old(self)@.state,
            result matches Ok(Some(PumpStatus::Wait(d))) ==> d@ > 20_000_000,
            result matches Ok(Some(PumpStatus::Backpressured)) ==> old(self)@.has_transport
                && old(self)@.pending_transport.len() > 0 && final(self)@.pending_transport.len()
                == old(self)@.pending_transport.len() && final(self)@.has_transport,
            match result {
                Err(RuntimeError::TransportSend { failure, message }) => {
                    &&& failure != TransportSendFailure::Backpressure
                    &&& old(self)@.has_transport
                    &&& old(self)@.pending_transport.len() > 0
                    &&& !final(self)@.has_transport
                    &&& final(self)@.connection == (ConnectionState::Failed { message })
                },
                Err(RuntimeError::Terminal(e)) => {
                    &&& e == TerminalError::LogicalLineOverflow
                    &&& (old(self)@.terminal.printing || (old(self)@.pending_application.len() > 0
                        && old(self)@.pending_application[0] == ApplicationCommand::SetPrinterEnabled(
                        true,
                    )))
                },
                Err(_) => false,
                Ok(_) => true,
            },
            result matches Ok(Some(PumpStatus::Idle)) ==> quiescent(final(self)@),
            quiet_printer(old(self)@) ==> quiet_printer(final(self)@) && !(result matches Err(
                RuntimeError::Terminal(_),
            )),
            line_route(old(self)@) && final(self)@.has_transport && result is Ok && !(result matches Ok(
                Some(PumpStatus::Backpressured),
            )) ==> outbound(final(self)@) == outbound(old(self)@) && line_route(final(self)@),
            line_route(old(self)@) ==> commands_bytes(final(self)@.sent).is_prefix_of(
                outbound(old(self)@),
            ),
            !old(self)@.has_transport ==> final(self)@.sent == old(self)@.sent,
            free_running(old(self)@) ==> {
                &&& free_running(final(self)@)
                &&& work(final(self)@) <= work(old(self)@)
                &&& result matches Ok(status) && match status {
                    None => work(final(self)@) < work(old(self)@),
                    Some(s) => s is Idle,
                }
            },
    {
        let ingress = match self.round_ingress() {
            Ok(Some(p)) => p,
            Ok(None) => {
                return Ok(Some(PumpStatus::Backpressured));
            },
            Err(e) => {
                return Err(e);
            },
        };
        let now = self.scheduler.now();
        let (polled, next_wait) = match self.poll_flows(now) {
            Ok(outcome) => outcome,
            Err(e) => {
                return Err(e);
            },
        };
        if ingress || polled {
            Ok(None)
        } else {
            match next_wait {
                Some(duration) => Ok(Some(PumpStatus::Wait(duration))),
                None => Ok(Some(PumpStatus::Idle)),
            }
        }
    }

    /// The ingress half of a round: apply at most one application command, hand at
    /// most one command to the transport and, unless more application commands wait,
    /// take at most one transport event. `Ok(None)` when the transport refused the
    /// send for backpressure, otherwise whether anything progressed.
    #[verifier::spinoff_prover]
    #[verifier::rlimit(60)]
    fn round_ingress(&mut self) -> (result: Result<Option<bool>, RuntimeError<T::Error>>)
        requires
            old(self)@.wf(),
            old(self)@.state == RuntimeState::Running,
        ensures
            within_running_work(old(self)@, final(self)@),
            final(self)@.wf(),
            final(self)@.state == old(self)@.state,
            final(self)@.terminal.printing ==> old(self)@.terminal.printing || (
            old(self)@.pending_application.len() > 0 && old(self)@.pending_application[0]
                == ApplicationCommand::SetPrinterEnabled(true)),
            quiet_printer(old(self)@) ==> quiet_printer(final(self)@),
            match result {
                Ok(None) => old(self)@.has_transport && old(self)@.pending_transport.len() > 0
                    && final(self)@.pending_transport.len() == old(self)@.pending_transport.len()
                    && final(self)@.has_transport,
                Ok(Some(progressed)) => !progressed ==> stalled(final(self)@),
                Err(RuntimeError::TransportSend { failure, message }) => {
                    &&& failure != TransportSendFailure::Backpressure
                    &&& old(self)@.has_transport
                    &&& old(self)@.pending_transport.len() > 0
                    &&& !final(self)@.has_transport
                    &&& final(self)@.connection == (ConnectionState::Failed { message })
                },
                Err(_) => false,
            },
            line_route(old(self)@) && final(self)@.has_transport && (result matches Ok(Some(_)))
                ==> outbound(final(self)@) == outbound(old(self)@) && line_route(final(self)@),
            line_route(old(self)@) ==> commands_bytes(final(self)@.sent).is_prefix_of(
                outbound(old(self)@),
            ),
            !old(self)@.has_transport ==> final(self)@.sent == old(self)@.sent,
            free_running(old(self)@) ==> free_running(final(self)@) && (result matches Ok(Some(p))
                && work(final(self)@) + (if p {
                1nat
            } else {
                0nat
            }) <= work(old(self)@)),
    {
        let ghost v0 = self@;
        let application_progressed = self.drain_one_application();
        let ghost v1 = self@;
        proof {
            lemma_sent_leads_outbound(v1);
        }
        let defer_ingress = application_progressed && self.pending_application.len() > 0;
        let mut progressed = application_progressed;
        match self.flush_one_transport() {
            Ok(FlushStatus::Empty) => {},
            Ok(FlushStatus::Sent) => progressed = true,
            Ok(FlushStatus::Backpressured) => {
                return Ok(None);
            },
            Err(e) => {
                return Err(e);
            },
        }
        let ghost v2 = self@;
        proof {
            lemma_sent_leads_outbound(v2);
        }
        if !defer_ingress {
            let received = self.receive_one_transport_event();
            progressed = progressed || received;
        }
        Ok(Some(progressed))
    }

    /// The pacing half of a round: poll the TX, loopback and RX flows once at `now`,
    /// acting on what each produced. Whether anything progressed, and the earliest
    /// wait any flow asked for.
    #[verifier::spinoff_prover]
    #[verifier::rlimit(60)]
    fn poll_flows(&mut self, now: Duration) -> (result: Result<
        (bool, Option<Duration>),
        RuntimeError<T::Error>,
    >)
        requires
            old(self)@.wf(),
        ensures
            within_running_work(old(self)@, final(self)@),
            (result matches Err(RuntimeError::Terminal(_))) || final(self)@.wf(),
            final(self)@.state == old(self)@.state,
            result matches Ok((_, Some(d))) ==> d@ > 20_000_000,
            final(self)@.pending_application == old(self)@.pending_application,
            final(self)@.pending_transport_event == old(self)@.pending_transport_event,
            final(self)@.has_transport == old(self)@.has_transport,
            result matches Ok((false, None)) ==> final(self)@ == old(self)@
                && old(self)@.throttle.tx.is_idle() && old(self)@.throttle.loopback.is_idle()
                && old(self)@.throttle.rx.is_idle(),
            result is Err ==> (result matches Err(
                RuntimeError::Terminal(TerminalError::LogicalLineOverflow),
            )) && old(self)@.terminal.printing,
            !old(self)@.terminal.printing ==> result is Ok && !final(self)@.terminal.printing,
            line_route(old(self)@) && result is Ok ==> outbound(final(self)@) == outbound(
                old(self)@,
            ) && line_route(final(self)@),
            final(self)@.sent == old(self)@.sent,
            final(self)@.throttle.mode == old(self)@.throttle.mode,
            old(self)@.throttle.mode == ThrottleMode::Unthrottled && !old(self)@.terminal.printing
                ==> (result matches Ok((p, w)) && w is None && work(final(self)@) + (if p {
                1nat
            } else {
                0nat
            }) <= work(old(self)@)),
    {
        proof {
            assert forall|t: TerminalView, data: Seq<u8>|
                (#[trigger] receive(t, data) matches Err(e) ==> e
                    == TerminalError::LogicalLineOverflow && t.printing) && (!t.printing ==> (receive(
                    t,
                    data,
                ) matches Ok(u) && !u.printing)) by {
                lemma_receive_failure(t, data);
            }
        }
        let ghost v0 = self@;
        proof {
            if v0.throttle.mode == ThrottleMode::Unthrottled {
                lemma_unthrottled_poll_work(v0.throttle, DataFlow::Tx, now@);
            }
        }
        let mut next_wait: Option<Duration> = None;
        let tx = match self.poll_one(DataFlow::Tx, now, &mut next_wait) {
            Ok(p) => p,
            Err(e) => {
                return Err(e);
            },
        };
        let ghost v1 = self@;
        let ghost w1 = next_wait;
        proof {
            if v0.throttle.mode == ThrottleMode::Unthrottled && !v0.terminal.printing {
                lemma_unthrottled_poll_work(v1.throttle, DataFlow::Loopback, now@);
            }
        }
        proof {
            if line_route(v0) {
                lemma_poll_conserves_bytes(
                    v0.throttle.tx,
                    DataFlow::Tx,
                    v0.throttle.tx_rate_cps,
                    v0.throttle.mode,
                    now@,
                    true,
                );
                if v1.pending_transport.len() > v0.pending_transport.len() {
                    assert(v1.pending_transport =~= v0.pending_transport.push(
                        v1.pending_transport.last(),
                    ));
                    lemma_commands_bytes_push(v0.pending_transport, v1.pending_transport.last());
                }
                assert(outbound(v1) =~= outbound(v0));
            }
        }
        let loopback = match self.poll_one(DataFlow::Loopback, now, &mut next_wait) {
            Ok(p) => p,
            Err(e) => {
                return Err(e);
            },
        };
        let ghost v2 = self@;
        let ghost w2 = next_wait;
        proof {
            if v0.throttle.mode == ThrottleMode::Unthrottled && !v0.terminal.printing {
                lemma_unthrottled_poll_work(v2.throttle, DataFlow::Rx, now@);
            }
        }
        let rx = match self.poll_one(DataFlow::Rx, now, &mut next_wait) {
            Ok(p) => p,
            Err(e) => {
                return Err(e);
            },
        };
        proof {
            if !tx && !loopback && !rx && next_wait is None {
                lemma_poll_idle(v0.throttle, DataFlow::Tx, now@);
                lemma_poll_idle(v1.throttle, DataFlow::Loopback, now@);
                lemma_poll_idle(v2.throttle, DataFlow::Rx, now@);
                assert(w2 is None);
                assert(w1 is None);
            }
        }
        Ok((tx || loopback || rx, next_wait))
    }

    /// Poll one flow at `now` and act on what it produced; a wait is folded into
    /// `next_wait` as the earliest one seen.
    fn poll_one(&mut self, flow: DataFlow, now: Duration, next_wait: &mut Option<Duration>) -> (result:
        Result<bool, RuntimeError<T::Error>>)
        requires
            old(self)@.wf(),
            (*old(next_wait)) matches Some(d) ==> d@ > 20_000_000,
        ensures
            within_running_work(old(self)@, final(self)@),
            (result matches Err(RuntimeError::Terminal(_))) || final(self)@.wf(),
            final(self)@.state == old(self)@.state,
            (*final(next_wait)) matches Some(d) ==> d@ > 20_000_000,
            ({
                let (t, s) = poll_throttle(old(self)@.throttle, flow, now@);
                &&& step_outcome(RuntimeView { throttle: t, ..old(self)@ }, s, result, final(self)@)
                &&& earliest_wait(*old(next_wait), s, *final(next_wait))
            }),
    {
        let step = match flow {
            DataFlow::Tx => self.throttle.poll_tx(now),
            DataFlow::Loopback => self.throttle.poll_loopback(now),
            DataFlow::Rx => self.throttle.poll_rx(now),
        };
        self.handle_step(step, next_wait)
    }

    fn handle_step(&mut self, step: ThrottleStep, next_wait: &mut Option<Duration>) -> (result:
        Result<bool, RuntimeError<T::Error>>)
        requires
            old(self)@.wf(),
            step matches ThrottleStep::Wait { duration, .. } ==> duration@ > 20_000_000,
            (*old(next_wait)) matches Some(d) ==> d@ > 20_000_000,
        ensures
            within_running_work(old(self)@, final(self)@),
            (result matches Err(RuntimeError::Terminal(_))) || final(self)@.wf(),
            final(self)@.state == old(self)@.state,
            (*final(next_wait)) matches Some(d) ==> d@ > 20_000_000,
            step_outcome(old(self)@, step_view(step), result, final(self)@),
            earliest_wait(*old(next_wait), step_view(step), *final(next_wait)),
    {
        match step {
            ThrottleStep::Idle => Ok(false),
            ThrottleStep::Wait { duration, .. } => {
                *next_wait = Some(
                    match *next_wait {
                        Some(current) => current.min(duration),
                        None => duration,
                    },
                );
                Ok(false)
            },
            ThrottleStep::Output { output, .. } => {
                let ghost delivered = output;
                match self.apply_output(output) {
                    Ok(()) => {
                        proof {
                            if delivered is ToTransport {
                                assert(self@.pending_transport.drop_last()
                                    =~= old(self)@.pending_transport);
                            }
                        }
                        Ok(true)
                    },
                    Err(e) => Err(e),
                }
            },
            ThrottleStep::Dropped { .. } => Ok(true),
        }
    }

    /// Stop all work and release the transport. Calling it again does nothing.
    pub fn shutdown(&mut self) -> (result: Result<(), RuntimeError<T::Error>>)
        requires
            old(self)@.wf(),
        ensures
            final(self)@.wf(),
            (old(self)@.state == RuntimeState::Shutdown || old(self)@.state == RuntimeState::Joined)
                ==> result is Ok && final(self)@ == old(self)@,
            (old(self)@.state == RuntimeState::Created || old(self)@.state == RuntimeState::Running)
                ==> match result {
                Ok(()) => {
                    &&& final(self)@.state == RuntimeState::Shutdown
                    &&& !final(self)@.has_transport
                    &&& final(self)@.pending_application.len() == 0
                    &&& final(self)@.pending_transport.len() == 0
                    &&& final(self)@.pending_transport_event is None
                    &&& final(self)@.connection == ConnectionState::Disconnected
                },
                Err(_) => final(self)@.state == old(self)@.state && !final(self)@.has_transport,
            },
            !old(self)@.has_transport ==> result is Ok,
            result is Ok ==> final(self)@ == shut_down(old(self)@),
            result is Err ==> (result matches Err(RuntimeError::Transport(_))) && final(self)@ == (
            RuntimeView { connection: final(self)@.connection, ..released(old(self)@) })
                && final(self)@.connection is Failed,
    {
        match self.state {
            RuntimeState::Shutdown => {
                return Ok(());
            },
            RuntimeState::Joined => {
                return Ok(());
            },
            _ => {},
        }
        match self.disconnect() {
            Ok(()) => {},
            Err(e) => {
                return Err(e);
            },
        }
        self.pending_transport.clear();
        self.pending_application.clear();
        self.pending_transport_event = None;
        self.state = RuntimeState::Shutdown;
        assert(self@.pending_application =~= Seq::<ApplicationCommand>::empty());
        assert(self@.pending_transport =~= Seq::<TransportCommand>::empty());
        Ok(())
    }

    /// Shut down (if needed) and mark the runtime joined. Calling it again does nothing.
    pub fn join(&mut self) -> (result: Result<(), RuntimeError<T::Error>>)
        requires
            old(self)@.wf(),
        ensures
            final(self)@.wf(),
            old(self)@.state == RuntimeState::Joined ==> result is Ok && final(self)@ == old(self)@,
            result is Ok ==> final(self)@.state == RuntimeState::Joined && !final(self)@.has_transport
                || old(self)@.state == RuntimeState::Joined,
            lifecycle_rank(old(self)@.state) <= lifecycle_rank(final(self)@.state),
            !old(self)@.has_transport ==> result is Ok,
            result is Ok ==> final(self)@ == (RuntimeView {
                state: RuntimeState::Joined,
                ..shut_down(old(self)@)
            }),
            result is Err ==> (result matches Err(RuntimeError::Transport(_))) && final(self)@ == (
            RuntimeView { connection: final(self)@.connection, ..released(old(self)@) })
                && final(self)@.connection is Failed,
    {
        match self.state {
            RuntimeState::Joined => {
                return Ok(());
            },
            _ => {},
        }
        match self.shutdown() {
            Ok(()) => {},
            Err(e) => {
                return Err(e);
            },
        }
        self.state = RuntimeState::Joined;
        Ok(())
    }

    pub fn terminal(&self) -> (terminal: &Terminal)
        ensures
            terminal@ == self@.terminal,
    {
        &self.terminal
    }

    pub fn pop_character_event(&mut self) -> (event: Option<CharacterEvent>)
        requires
            old(self)@.wf(),
        ensures
            final(self)@.wf(),
            match event {
                Some(e) => old(self)@.terminal.events.len() > 0 && e == old(self)@.terminal.events[0]
                    && final(self)@ == (RuntimeView {
                    terminal: TerminalView {
                        events: old(self)@.terminal.events.drop_first(),
                        ..old(self)@.terminal
                    },
                    ..old(self)@
                }),
                None => old(self)@.terminal.events.len() == 0 && final(self)@ == old(self)@,
            },
    {
        self.terminal.pop_character_event()
    }

    pub fn state(&self) -> (state: RuntimeState)
        ensures
            state == self@.state,
    {
        self.state
    }

    pub fn pop_event(&mut self) -> (event: Option<RuntimeEvent>)
        ensures
            match event {
                Some(e) => old(self)@.events.len() > 0 && e == old(self)@.events[0] && final(self)@
                    == (RuntimeView { events: old(self)@.events.drop_first(), ..old(self)@ }),
                None => old(self)@.events.len() == 0 && final(self)@ == old(self)@,
            },
    {
        let e = self.events.pop_front();
        proof {
            if e is Some {
                assert(self@.events =~= old(self)@.events.drop_first());
            }
        }
        e
    }

    pub fn transport(&self) -> (transport: Option<&T>)
        ensures
            transport is Some == self@.has_transport,
    {
        self.transport.as_ref()
    }

    pub fn transport_mut(&mut self) -> (transport: Option<&mut T>)
        ensures
            transport is Some == old(self)@.has_transport,
            final(self)@ == old(self)@,
    {
        self.transport.as_mut()
    }

    pub fn scheduler(&self) -> (scheduler: &S)
        ensures
            *scheduler == self.scheduler_value(),
    {
        &self.scheduler
    }

    pub fn scheduler_mut(&mut self) -> (scheduler: &mut S)
        ensures
            *scheduler == old(self).scheduler_value(),
            final(self)@ == old(self)@,
    {
        &mut self.scheduler
    }

    pub fn connection_state(&self) -> (connection: &ConnectionState)
        ensures
            *connection == self@.connection,
    {
        &self.connection
    }

    /// Arm the one-time carriage return sent on the first successful LINE connection.
    pub fn configure_startup_cr(&mut self, enabled: bool)
        ensures
            final(self)@ == (RuntimeView {
                startup_cr_pending: enabled && !old(self)@.startup_cr_consumed
                    && old(self)@.throttle.communication == CommunicationMode::Line,
                ..old(self)@
            }),
    {
        self.startup_cr_pending = enabled && !self.startup_cr_consumed && self.is_line_mode();
    }

    /// Start `transport` and make it the active connection.
    ///
    /// A transport that fails to start is shut down and joined, and the failure is
    /// recorded as an event. An already connected runtime ignores the new transport.
    pub fn connect(&mut self, transport: T) -> (result: Result<(), RuntimeError<T::Error>>)
        requires
            old(self)@.wf(),
        ensures
            final(self)@.wf(),
            final(self)@.state == old(self)@.state,
            old(self)@.state != RuntimeState::Running ==> result == Err::<
                (),
                RuntimeError<T::Error>,
            >(RuntimeError::InvalidState(old(self)@.state)) && final(self)@ == old(self)@,
            old(self)@.state == RuntimeState::Running && is_connected(old(self)@.connection)
                ==> result is Ok && final(self)@ == old(self)@,
            old(self)@.state == RuntimeState::Running && !is_connected(old(self)@.connection)
                ==> match result {
                Ok(()) => final(self)@ == connected(old(self)@),
                Err(e) => e matches RuntimeError::Transport(error) && exists|message: String|
                    call_ensures(T::error_message, (&error,), message) && final(self)@
                        == #[trigger] connect_failed(old(self)@, message),
            },
    {
        self.require_running()?;
        if self.is_connected() {
            return Ok(());
        }
        let mut transport = transport;
        match transport.start() {
            Ok(()) => {
                self.transport = Some(transport);
                self.connection = ConnectionState::Connected;
                if self.startup_cr_pending && !self.startup_cr_consumed {
                    if self.is_line_mode() {
                        let mut cr: Vec<u8> = Vec::new();
                        cr.push(0x0d);
                        match self.throttle.enqueue_tx(cr) {
                            Ok(_) => {
                                self.startup_cr_pending = false;
                                self.startup_cr_consumed = true;
                            },
                            Err(_) => {},
                        }
                    } else {
                        self.startup_cr_pending = false;
                        self.startup_cr_consumed = true;
                    }
                }
                Ok(())
            },
            Err(error) => {
                let describe = T::error_message;
                let message = describe(&error);
                let ghost reported = message;
                let _ = transport.shutdown();
                let _ = transport.join();
                self.record_connection_failure(message);
                assert(self@ == connect_failed(old(self)@, reported));
                Err(RuntimeError::Transport(error))
            },
        }
    }

    /// Record that connecting failed: external work is discarded and an event is queued.
    pub fn record_connection_failure(&mut self, message: String)
        requires
            old(self)@.wf(),
        ensures
            final(self)@.wf(),
            external_work_cleared(old(self)@, final(self)@),
            final(self)@.connection == (ConnectionState::Failed { message }),
            final(self)@.events == old(self)@.events.push(RuntimeEvent::ConnectionFailed(message)),
            final(self)@.state == old(self)@.state,
            final(self)@.has_transport == old(self)@.has_transport,
            final(self)@ == connect_failed(old(self)@, message),
    {
        self.clear_external_work();
        assert(self@.pending_transport =~= Seq::<TransportCommand>::empty());
        let copy = message.clone();
        self.connection = ConnectionState::Failed { message };
        self.events.push_back(RuntimeEvent::ConnectionFailed(copy));
    }

    /// Drop the connection: external work is discarded, the transport is shut down and
    /// joined, and the connection becomes disconnected (or failed, if closing failed).
    #[verifier::spinoff_prover]
    pub fn disconnect(&mut self) -> (result: Result<(), RuntimeError<T::Error>>)
        requires
            old(self)@.wf(),
        ensures
            final(self)@.wf(),
            !final(self)@.has_transport,
            final(self)@.state == old(self)@.state,
            final(self)@.events == old(self)@.events,
            final(self)@.throttle == (ThrottleView {
                tx: FlowView { queue: Seq::empty(), active: None, ..old(self)@.throttle.tx },
                ..old(self)@.throttle
            }),
            final(self)@.pending_transport.len() == 0,
            final(self)@.pending_transport_event is None,
            final(self)@.pending_application == old(self)@.pending_application.filter(keeps_when_cleared()),
            final(self)@.terminal == old(self)@.terminal,
            final(self)@ == (RuntimeView { connection: final(self)@.connection, ..released(old(self)@) }),
            !old(self)@.has_transport ==> result is Ok,
            result is Ok ==> final(self)@.connection == ConnectionState::Disconnected,
            result is Err ==> (result matches Err(RuntimeError::Transport(_))),
            result matches Err(RuntimeError::Transport(error)) ==> exists|detail: String|
                call_ensures(T::error_message, (&error,), detail) && (final(self)@.connection matches ConnectionState::Failed { message }
                    && message@ == "transport error: "@ + detail@),
    {
        self.clear_external_work();
        assert(self@.pending_transport =~= Seq::<TransportCommand>::empty());
        let outcome = match self.transport.take() {
            Some(mut transport) => {
                let shutdown = transport.shutdown();
                let join = transport.join();
                match shutdown {
                    Ok(()) => match join {
                        Ok(()) => Ok(()),
                        Err(e) => Err(e),
                    },
                    Err(e) => Err(e),
                }
            },
            None => Ok(()),
        };
        match outcome {
            Ok(()) => {
                self.connection = ConnectionState::Disconnected;
                Ok(())
            },
            Err(error) => {
                let describe = T::error_message;
                let detail = describe(&error);
                let mut message = empty_string();
                push_chars(&mut message, "transport error: ");
                push_chars(&mut message, detail.as_str());
                proof {
                    reveal_strlit("transport error: ");
                }
                assert(message@ == "transport error: "@ + detail@);
                assert(call_ensures(T::error_message, (&error,), detail));
                let ghost described = detail;
                self.connection = ConnectionState::Failed { message };
                assert(self@.connection matches ConnectionState::Failed { message }
                    && message@ == "transport error: "@ + described@);
                let failed: Result<(), RuntimeError<T::Error>> = Err(RuntimeError::Transport(error));
                assert(failed matches Err(RuntimeError::Transport(returned)) && call_ensures(
                    T::error_message,
                    (&returned,),
                    described,
                ));
                failed
            },
        }
    }

    /// Whether every accepted application transmit has reached its destination
    /// boundary: the transport adapter in LINE or the terminal in LOCAL.
    pub fn transmit_idle(&self) -> (idle: bool)
        ensures
            idle == self@.transmit_idle(),
    {
        if !self.throttle.transmit_idle() || self.pending_transport.len() > 0 {
            return false;
        }
        let n = self.pending_application.len();
        let mut i: usize = 0;
        while i < n
            invariant
                n == self@.pending_application.len(),
                i <= n,
                forall|j: int| 0 <= j < i ==> !is_transmit(#[trigger] self@.pending_application[j]),
            decreases n - i,
        {
            match &self.pending_application[i] {
                ApplicationCommand::Transmit(_) => {
                    return false;
                },
                _ => {},
            }
            i += 1;
        }
        true
    }

    /// Take one transport event, the one held back first: received bytes go to the RX
    /// queue (or wait again when it is full), and a reported failure is recorded as an
    /// event and drops the connection, releasing the transport.
    pub fn receive_one_transport_event(&mut self) -> (progressed: bool)
        requires
            old(self)@.wf(),
            old(self)@.state == RuntimeState::Running,
        ensures
            within_running_work(old(self)@, final(self)@),
            final(self)@.wf(),
            final(self)@.state == old(self)@.state,
            old(self)@.pending_transport_event matches Some(event) ==> transport_event_taken(
                RuntimeView { pending_transport_event: None, ..old(self)@ },
                event,
                final(self)@,
                progressed,
            ),
            old(self)@.pending_transport_event is None && !old(self)@.has_transport ==> !progressed
                && final(self)@ == old(self)@,
            old(self)@.pending_transport_event is None && old(self)@.has_transport ==> (!progressed
                && final(self)@ == old(self)@) || (exists|event: TransportEvent|
                #[trigger] transport_event_taken(old(self)@, event, final(self)@, progressed)) || (
            progressed && exists|message: String|
                final(self)@ == #[trigger] receive_failed(old(self)@, message)),
            final(self)@.sent == old(self)@.sent,
            final(self)@.has_transport ==> outbound(final(self)@) == outbound(old(self)@) && (line_route(
                old(self)@,
            ) ==> line_route(final(self)@)),
            quiet_printer(old(self)@) ==> quiet_printer(final(self)@),
            !old(self)@.has_transport ==> work(final(self)@) + (if progressed {
                1nat
            } else {
                0nat
            }) <= work(old(self)@),
            free_running(old(self)@) ==> free_running(final(self)@),
    {
        proof {
            old(self)@.pending_application.lemma_filter_len(keeps_when_cleared());
            if quiet_printer(old(self)@) {
                lemma_filter_keeps_absent(
                    old(self)@.pending_application,
                    ApplicationCommand::SetPrinterEnabled(true),
                );
            }
            if free_running(old(self)@) {
                lemma_filter_keeps_absent(
                    old(self)@.pending_application,
                    ApplicationCommand::SetThrottleMode(ThrottleMode::Throttled),
                );
            }
        }
        let event = match self.pending_transport_event.take() {
            Some(event) => event,
            None => {
                let received = match self.transport.as_mut() {
                    None => {
                        return false;
                    },
                    Some(transport) => transport.try_recv(),
                };
                match received {
                    Ok(Some(event)) => event,
                    Ok(None) => {
                        return false;
                    },
                    Err(error) => {
                        let message = T::error_message(&error);
                        let ghost reported = message;
                        let copy = message.clone();
                        self.events.push_back(RuntimeEvent::ConnectionFailed(copy));
                        self.fail_active_connection(message);
                        assert(self@ == receive_failed(old(self)@, reported));
                        return true;
                    },
                }
            },
        };
        let ghost start = self@;
        let ghost taken = event;
        assert(old(self)@.pending_transport_event is None ==> start == old(self)@);
        let progressed = match event {
            TransportEvent::Received(data) => match self.throttle.enqueue_rx(data) {
                Ok(_) => true,
                Err(rejected) => {
                    self.pending_transport_event = Some(TransportEvent::Received(rejected.data));
                    false
                },
            },
            TransportEvent::Failed { operation, message } => {
                let copy = message.clone();
                self.events.push_back(RuntimeEvent::TransportFailed { operation, message: copy });
                self.fail_active_connection(message);
                true
            },
        };
        assert(transport_event_taken(start, taken, self@, progressed));
        progressed
    }

    fn drain_one_application(&mut self) -> (progressed: bool)
        requires
            old(self)@.wf(),
        ensures
            within_running_work(old(self)@, final(self)@),
            final(self)@.wf(),
            final(self)@.state == old(self)@.state,
            old(self)@.pending_application.len() == 0 ==> !progressed && final(self)@ == old(self)@,
            old(self)@.pending_application.len() > 0 ==> {
                let command = old(self)@.pending_application[0];
                let rest = RuntimeView {
                    pending_application: old(self)@.pending_application.drop_first(),
                    ..old(self)@
                };
                if command_taken(old(self)@, command) {
                    progressed && final(self)@ == command_applied(rest, command)
                } else {
                    !progressed && final(self)@ == old(self)@ && command is Transmit
                }
            },
            line_route(old(self)@) ==> outbound(final(self)@) == outbound(old(self)@) && line_route(
                final(self)@,
            ),
            quiet_printer(old(self)@) ==> quiet_printer(final(self)@),
            work(final(self)@) + (if progressed {
                1nat
            } else {
                0nat
            }) <= work(old(self)@),
            free_running(old(self)@) ==> free_running(final(self)@),
    {
        proof {
            if line_route(old(self)@) && old(self)@.pending_application.len() > 0 && command_taken(
                old(self)@,
                old(self)@.pending_application[0],
            ) {
                lemma_applied_keeps_outbound(old(self)@);
            }
            if old(self)@.pending_application.len() > 0 {
                lemma_applied_work(old(self)@);
            }
        }
        let command = match self.pending_application.pop_front() {
            Some(command) => command,
            None => {
                return false;
            },
        };
        match self.apply_application_command(command) {
            Ok(()) => true,
            Err(rejected) => {
                self.pending_application.push_front(rejected);
                assert(self@.pending_application =~= old(self)@.pending_application);
                false
            },
        }
    }

    /// Printer commands go to the terminal, everything else to the throttle; a refused
    /// transmit comes back as a transmit of the same bytes.
    fn apply_application_command(&mut self, command: ApplicationCommand) -> (result: Result<
        (),
        ApplicationCommand,
    >)
        requires
            old(self)@.wf(),
        ensures
            within_running_work(old(self)@, final(self)@),
            final(self)@.wf(),
            final(self)@.state == old(self)@.state,
            final(self)@.connection == old(self)@.connection,
            final(self)@.has_transport == old(self)@.has_transport,
            final(self)@ == command_applied(old(self)@, command),
            match result {
                Ok(()) => command_taken(old(self)@, command),
                Err(rejected) => !command_taken(old(self)@, command) && rejected == command && command is Transmit,
            },
    {
        match command {
            ApplicationCommand::SetPrinterEnabled(enabled) => {
                if enabled {
                    self.terminal.enable_printing();
                } else {
                    self.terminal.disable_printing();
                }
                Ok(())
            },
            command => match self.throttle.handle_application_command(command) {
                Ok(_) => Ok(()),
                Err(rejected) => Err(ApplicationCommand::Transmit(rejected.data)),
            },
        }
    }

    fn apply_output(&mut self, output: ThrottleOutput) -> (result: Result<(), RuntimeError<T::Error>>)
        requires
            old(self)@.wf(),
        ensures
            within_running_work(old(self)@, final(self)@),
            (result matches Err(RuntimeError::Terminal(_))) || final(self)@.wf(),
            final(self)@.state == old(self)@.state,
            match output {
                ThrottleOutput::ToTransport(command) => result is Ok && final(self)@ == (RuntimeView {
                    pending_transport: old(self)@.pending_transport.push(command),
                    ..old(self)@
                }),
                ThrottleOutput::ToApplication(data) => match result {
                    Ok(()) => delivered_to_terminal(old(self)@, data@, final(self)@),
                    Err(e) => e matches RuntimeError::Terminal(te) && refused_by_terminal(
                        old(self)@,
                        data@,
                        te,
                        final(self)@,
                    ),
                },
            },
    {
        match output {
            ThrottleOutput::ToTransport(command) => {
                self.pending_transport.push_back(command);
            },
            ThrottleOutput::ToApplication(data) => {
                let effects = match self.terminal.receive_data(data.as_slice()) {
                    Ok(effects) => effects,
                    Err(e) => {
                        return Err(RuntimeError::Terminal(e));
                    },
                };
                if effects.forwarded_bytes.len() > 0 {
                    self.events.push_back(RuntimeEvent::TerminalForwarded(effects.forwarded_bytes));
                    assert(self@.events.drop_last() =~= old(self)@.events);
                }
            },
        }
        Ok(())
    }

    fn flush_one_transport(&mut self) -> (result: Result<FlushStatus, RuntimeError<T::Error>>)
        requires
            old(self)@.wf(),
        ensures
            within_running_work(old(self)@, final(self)@),
            final(self)@.wf(),
            final(self)@.state == old(self)@.state,
            old(self)@.pending_transport.len() == 0 ==> (result matches Ok(FlushStatus::Empty))
                && final(self)@ == old(self)@,
            old(self)@.pending_transport.len() > 0 && !old(self)@.has_transport ==> (result matches Ok(
                FlushStatus::Empty,
            )) && final(self)@ == (RuntimeView {
                pending_transport: old(self)@.pending_transport.drop_first(),
                ..old(self)@
            }),
            old(self)@.pending_transport.len() > 0 && old(self)@.has_transport ==> match result {
                Ok(FlushStatus::Empty) => false,
                Ok(FlushStatus::Sent) => final(self)@ == (RuntimeView {
                    pending_transport: old(self)@.pending_transport.drop_first(),
                    sent: old(self)@.sent.push(old(self)@.pending_transport[0]),
                    ..old(self)@
                }),
                Ok(FlushStatus::Backpressured) => {
                    &&& final(self)@ == (RuntimeView {
                        pending_transport: final(self)@.pending_transport,
                        ..old(self)@
                    })
                    &&& final(self)@.pending_transport.len() == old(self)@.pending_transport.len()
                    &&& final(self)@.pending_transport.drop_first()
                        == old(self)@.pending_transport.drop_first()
                },
                Err(e) => e matches RuntimeError::TransportSend { failure, message } && failure
                    != TransportSendFailure::Backpressure && final(self)@ == connection_lost(
                    old(self)@,
                    message,
                ),
            },
            line_route(old(self)@) ==> commands_bytes(final(self)@.sent).is_prefix_of(
                outbound(old(self)@),
            ),
            line_route(old(self)@) && final(self)@.has_transport && result is Ok && !(result matches Ok(
                FlushStatus::Backpressured,
            )) ==> outbound(final(self)@) == outbound(old(self)@) && line_route(final(self)@),
            quiet_printer(old(self)@) ==> quiet_printer(final(self)@),
            work(final(self)@) + (if result matches Ok(FlushStatus::Sent) {
                1nat
            } else {
                0nat
            }) <= work(old(self)@),
            free_running(old(self)@) ==> free_running(final(self)@) && (result matches Ok(
                FlushStatus::Empty,
            )),
    {
        proof {
            old(self)@.pending_application.lemma_filter_len(keeps_when_cleared());
            lemma_sent_leads_outbound(old(self)@);
            if old(self)@.pending_transport.len() > 0 {
                lemma_sent_keeps_outbound(old(self)@);
            }
            if quiet_printer(old(self)@) {
                lemma_filter_keeps_absent(
                    old(self)@.pending_application,
                    ApplicationCommand::SetPrinterEnabled(true),
                );
            }
        }
        let command = match self.pending_transport.pop_front() {
            Some(command) => command,
            None => {
                return Ok(FlushStatus::Empty);
            },
        };
        let ghost handed = command;
        let sent = match self.transport.as_mut() {
            None => {
                return Ok(FlushStatus::Empty);
            },
            Some(transport) => transport.send(command),
        };
        match sent {
            Ok(()) => {
                self.sent = Ghost(self.sent@.push(handed));
                Ok(FlushStatus::Sent)
            },
            Err(error) => match error.failure {
                TransportSendFailure::Backpressure => {
                    self.pending_transport.push_front(error.command);
                    Ok(FlushStatus::Backpressured)
                },
                failure => {
                    let message = error.message;
                    let copy = message.clone();
                    self.fail_active_connection(copy);
                    Err(RuntimeError::TransportSend { failure, message })
                },
            },
        }
    }

    fn clear_external_work(&mut self)
        requires
            old(self)@.wf(),
        ensures
            final(self)@.wf(),
            external_work_cleared(old(self)@, final(self)@),
            final(self)@.state == old(self)@.state,
            final(self)@.connection == old(self)@.connection,
            final(self)@.has_transport == old(self)@.has_transport,
            final(self)@.events == old(self)@.events,
            final(self)@.startup_cr_pending == old(self)@.startup_cr_pending,
            final(self)@.startup_cr_consumed == old(self)@.startup_cr_consumed,
            final(self)@.sent == old(self)@.sent,
    {
        self.throttle.clear_external_tx();
        self.pending_transport.clear();
        self.pending_transport_event = None;
        let mut kept: VecDeque<ApplicationCommand> = VecDeque::new();
        let ghost original = self.pending_application@;
        let ghost mid = self@;
        let n = self.pending_application.len();
        let mut i: usize = 0;
        while i < n
            invariant
                n == original.len(),
                self.pending_application@.len() == n - i,
                i <= n,
                self.pending_application@ == original.skip(i as int),
                kept@ == original.take(i as int).filter(keeps_when_cleared()),
                self@ == (RuntimeView { pending_application: self@.pending_application, ..mid }),
                mid.wf(),
            decreases n - i,
        {
            let command = self.pending_application.pop_front().unwrap();
            proof {
                assert(command == original[i as int]);
                assert(original.take(i + 1).drop_last() =~= original.take(i as int));
                assert(original.skip(i + 1) =~= original.skip(i as int).drop_first());
            }
            let transmit = match &command {
                ApplicationCommand::Transmit(_) => true,
                _ => false,
            };
            if !transmit {
                kept.push_back(command);
            }
            proof {
                assert(original.take(i + 1) =~= original.take(i as int).push(command));
                original.take(i as int).lemma_filter_push(command, keeps_when_cleared());
            }
            i += 1;
        }
        assert(original.take(n as int) =~= original);
        self.pending_application = kept;
    }

    fn fail_active_connection(&mut self, message: String)
        requires
            old(self)@.wf(),
        ensures
            final(self)@.wf(),
            external_work_cleared(old(self)@, final(self)@),
            final(self)@.state == old(self)@.state,
            !final(self)@.has_transport,
            final(self)@.connection == (ConnectionState::Failed { message }),
            final(self)@.events == old(self)@.events,
            final(self)@.startup_cr_pending == old(self)@.startup_cr_pending,
            final(self)@.startup_cr_consumed == old(self)@.startup_cr_consumed,
            final(self)@ == connection_lost(old(self)@, message),
    {
        self.clear_external_work();
        assert(self@.pending_transport =~= Seq::<TransportCommand>::empty());
        match self.transport.take() {
            Some(mut transport) => {
                let _ = transport.shutdown();
                let _ = transport.join();
            },
            None => {},
        }
        self.connection = ConnectionState::Failed { message };
    }
}

} // verus!
