//! Deterministic data-routing and byte-pacing policy.
//!
//! This module decides *whether* a scheduler should wait, but never sleeps and
//! never reads a clock. Queue capacities represent chunk backpressure.

use vstd::prelude::*;
use std::collections::VecDeque;
use super::events::{
    ApplicationCommand, CommunicationMode, DataFlow, ThrottleMode, ThrottleOutput, TransportCommand,
    TransportEvent,
};
use super::time::{Duration, NANOS_PER_MILLI, NANOS_PER_SEC};

verus! {

/// Chunks the local loopback queue holds before it pushes back.
pub const LOOPBACK_QUEUE_CAPACITY: usize = 8;

/// Waits of this many nanoseconds or less are skipped instead of accumulated.
pub const PERCEPTION_THRESHOLD_NANOS: u64 = 20_000_000;

#[derive(Debug, Clone, Copy, PartialEq, Eq, Structural)]
pub struct ThrottleConfig {
    pub tx_rate_cps: i64,
    pub rx_rate_cps: i64,
    pub tx_queue_capacity: usize,
    pub rx_queue_capacity: usize,
}

impl Default for ThrottleConfig {
    fn default() -> (config: Self)
        ensures
            config == (ThrottleConfig {
                tx_rate_cps: 10,
                rx_rate_cps: 10,
                tx_queue_capacity: 8,
                rx_queue_capacity: 8,
            }),
    {
        ThrottleConfig { tx_rate_cps: 10, rx_rate_cps: 10, tx_queue_capacity: 8, rx_queue_capacity: 8 }
    }
}

#[derive(Debug, Clone, Copy, PartialEq, Eq, Structural)]
pub enum EnqueueOutcome {
    Queued,
    Applied,
    IgnoredEmpty,
    IgnoredDuringLoopback,
    IgnoredTransportFailure,
}

#[derive(Debug, Clone, Copy, PartialEq, Eq, Structural)]
pub struct Backpressure {
    pub flow: DataFlow,
    pub capacity_chunks: usize,
}

/// A chunk refused by a full queue, handed back to its owner unchanged.
#[derive(Debug, Clone, PartialEq, Eq)]
pub struct RejectedData {
    pub backpressure: Backpressure,
    pub data: Vec<u8>,
}

#[derive(Debug, Clone, PartialEq, Eq)]
pub enum ThrottleStep {
    Idle,
    Wait { flow: DataFlow, duration: Duration },
    Output { flow: DataFlow, output: ThrottleOutput },
    Dropped { flow: DataFlow, data: Vec<u8> },
}

/// What a poll produced, in plain values.
pub enum StepView {
    Idle,
    Wait { flow: DataFlow, nanos: nat },
    ToTransport { flow: DataFlow, data: Seq<u8> },
    ToApplication { flow: DataFlow, data: Seq<u8> },
    Dropped { flow: DataFlow, data: Seq<u8> },
}

pub open spec fn step_view(step: ThrottleStep) -> StepView {
    match step {
        ThrottleStep::Idle => StepView::Idle,
        ThrottleStep::Wait { flow, duration } => StepView::Wait { flow, nanos: duration@ },
        ThrottleStep::Output { flow, output } => match output {
            ThrottleOutput::ToTransport(TransportCommand::Send(data)) => StepView::ToTransport {
                flow,
                data: data@,
            },
            ThrottleOutput::ToApplication(data) => StepView::ToApplication { flow, data: data@ },
        },
        ThrottleStep::Dropped { flow, data } => StepView::Dropped { flow, data: data@ },
    }
}

/// The chunk currently being paced out.
pub struct ActiveView {
    pub bytes: Seq<u8>,
    pub position: nat,
    pub rate_cps: i64,
}

/// One paced flow: its queued chunks, the active chunk and the time of its last emission.
pub struct FlowView {
    pub queue: Seq<Seq<u8>>,
    pub capacity: usize,
    pub active: Option<ActiveView>,
    pub last_event: nat,
}

impl FlowView {
    /// Queued chunks are non-empty and the active chunk has bytes left.
    pub open spec fn wf(self) -> bool {
        &&& forall|i: int| 0 <= i < self.queue.len() ==> (#[trigger] self.queue[i]).len() > 0
        &&& match self.active {
            Some(a) => a.position < a.bytes.len(),
            None => true,
        }
        &&& self.last_event <= u64::MAX
    }

    pub open spec fn is_idle(self) -> bool {
        self.queue.len() == 0 && self.active is None
    }

    /// Whether a new chunk is refused for lack of room (a capacity of zero is unbounded).
    pub open spec fn is_full(self) -> bool {
        self.capacity > 0 && self.queue.len() >= self.capacity
    }
}

/// The flow after pulling the next queued chunk into the active slot, if it is empty.
pub open spec fn activate(f: FlowView, rate_cps: i64) -> FlowView {
    if f.active is None && f.queue.len() > 0 {
        FlowView {
            active: Some(ActiveView { bytes: f.queue[0], position: 0, rate_cps }),
            queue: f.queue.drop_first(),
            ..f
        }
    } else {
        f
    }
}

/// Nanoseconds between bytes at `rate_cps` characters per second.
pub open spec fn interval_nanos(rate_cps: i64) -> nat
    recommends
        rate_cps > 0,
{
    (NANOS_PER_SEC as int / rate_cps as int) as nat
}

/// Time still to wait before the next byte, given the last emission.
pub open spec fn remaining_nanos(rate_cps: i64, last_event: nat, now: nat) -> nat {
    let elapsed = if now >= last_event { now - last_event } else { 0 };
    if interval_nanos(rate_cps) >= elapsed {
        (interval_nanos(rate_cps) - elapsed) as nat
    } else {
        0
    }
}

/// One scheduling decision for a flow at time `now`.
///
/// Zero and negative rates bypass serialization; a rate change reaches the next
/// chunk only, while the throttle mode is observed between bytes. Waits of 20 ms or
/// less are skipped.
pub open spec fn poll_flow(
    f: FlowView,
    flow: DataFlow,
    rate_cps: i64,
    mode: ThrottleMode,
    now: nat,
    deliver: bool,
) -> (FlowView, StepView) {
    let g = activate(f, rate_cps);
    match g.active {
        None => (g, StepView::Idle),
        Some(a) => {
            let unthrottled = mode == ThrottleMode::Unthrottled || a.rate_cps <= 0;
            let remaining = remaining_nanos(a.rate_cps, g.last_event, now);
            if !unthrottled && remaining > PERCEPTION_THRESHOLD_NANOS {
                (g, StepView::Wait { flow, nanos: remaining })
            } else {
                let end: nat = if unthrottled { a.bytes.len() } else { a.position + 1 };
                let data = a.bytes.subrange(a.position as int, end as int);
                let h = FlowView {
                    active: if end == a.bytes.len() {
                        None
                    } else {
                        Some(ActiveView { position: end, ..a })
                    },
                    last_event: now,
                    ..g
                };
                (
                    h,
                    if !deliver {
                        StepView::Dropped { flow, data }
                    } else if flow == DataFlow::Tx {
                        StepView::ToTransport { flow, data }
                    } else {
                        StepView::ToApplication { flow, data }
                    },
                )
            }
        },
    }
}

/// Abstract throttle state.
pub struct ThrottleView {
    pub mode: ThrottleMode,
    pub communication: CommunicationMode,
    pub tx_rate_cps: i64,
    pub rx_rate_cps: i64,
    pub tx: FlowView,
    pub rx: FlowView,
    pub loopback: FlowView,
}

impl ThrottleView {
    pub open spec fn wf(self) -> bool {
        &&& self.tx.wf()
        &&& self.rx.wf()
        &&& self.loopback.wf()
        &&& self.loopback.capacity == LOOPBACK_QUEUE_CAPACITY
    }

    /// No application transmit is still waiting inside the throttle.
    pub open spec fn transmit_idle(self) -> bool {
        self.tx.is_idle() && self.loopback.is_idle()
    }
}

/// Where application bytes go: the transport queue in LINE, the loopback queue in LOCAL.
pub open spec fn enqueue_tx(t: ThrottleView, data: Seq<u8>) -> (ThrottleView, Result<
    EnqueueOutcome,
    Backpressure,
>) {
    if data.len() == 0 {
        (t, Ok(EnqueueOutcome::IgnoredEmpty))
    } else if t.communication == CommunicationMode::Line {
        if t.tx.is_full() {
            (t, Err(Backpressure { flow: DataFlow::Tx, capacity_chunks: t.tx.capacity }))
        } else {
            (
                ThrottleView { tx: FlowView { queue: t.tx.queue.push(data), ..t.tx }, ..t },
                Ok(EnqueueOutcome::Queued),
            )
        }
    } else {
        if t.loopback.is_full() {
            (
                t,
                Err(
                    Backpressure { flow: DataFlow::Loopback, capacity_chunks: t.loopback.capacity },
                ),
            )
        } else {
            (
                ThrottleView {
                    loopback: FlowView { queue: t.loopback.queue.push(data), ..t.loopback },
                    ..t
                },
                Ok(EnqueueOutcome::Queued),
            )
        }
    }
}

/// Remote bytes are queued in LINE and ignored in LOCAL.
pub open spec fn enqueue_rx(t: ThrottleView, data: Seq<u8>) -> (ThrottleView, Result<
    EnqueueOutcome,
    Backpressure,
>) {
    if data.len() == 0 {
        (t, Ok(EnqueueOutcome::IgnoredEmpty))
    } else if t.communication == CommunicationMode::Local {
        (t, Ok(EnqueueOutcome::IgnoredDuringLoopback))
    } else if t.rx.is_full() {
        (t, Err(Backpressure { flow: DataFlow::Rx, capacity_chunks: t.rx.capacity }))
    } else {
        (
            ThrottleView { rx: FlowView { queue: t.rx.queue.push(data), ..t.rx }, ..t },
            Ok(EnqueueOutcome::Queued),
        )
    }
}

/// Entering LOCAL always discards queued loopback chunks (the active one stays).
pub open spec fn set_communication_mode(t: ThrottleView, mode: CommunicationMode) -> ThrottleView {
    ThrottleView {
        communication: mode,
        loopback: if mode == CommunicationMode::Local {
            FlowView { queue: Seq::empty(), ..t.loopback }
        } else {
            t.loopback
        },
        ..t
    }
}

/// The outcome of an enqueue, with a refused chunk returned to its owner.
pub open spec fn enqueue_matches(
    result: Result<EnqueueOutcome, RejectedData>,
    expected: Result<EnqueueOutcome, Backpressure>,
    data: Seq<u8>,
) -> bool {
    match (result, expected) {
        (Ok(o), Ok(e)) => o == e,
        (Err(r), Err(b)) => r.backpressure == b && r.data@ == data,
        _ => false,
    }
}

pub open spec fn command_effect(t: ThrottleView, command: ApplicationCommand) -> (ThrottleView, Result<
    EnqueueOutcome,
    Backpressure,
>) {
    match command {
        ApplicationCommand::Transmit(data) => enqueue_tx(t, data@),
        ApplicationCommand::SetCommunicationMode(mode) => (
            set_communication_mode(t, mode),
            Ok(EnqueueOutcome::Applied),
        ),
        ApplicationCommand::SetThrottleMode(mode) => (
            ThrottleView { mode, ..t },
            Ok(EnqueueOutcome::Applied),
        ),
        ApplicationCommand::SetTxRate(rate) => (
            ThrottleView { tx_rate_cps: rate, ..t },
            Ok(EnqueueOutcome::Applied),
        ),
        ApplicationCommand::SetRxRate(rate) => (
            ThrottleView { rx_rate_cps: rate, ..t },
            Ok(EnqueueOutcome::Applied),
        ),
        ApplicationCommand::SetPrinterEnabled(_) => (t, Ok(EnqueueOutcome::Applied)),
    }
}

pub open spec fn command_data(command: ApplicationCommand) -> Seq<u8> {
    match command {
        ApplicationCommand::Transmit(data) => data@,
        _ => Seq::empty(),
    }
}

/// All queued chunks, concatenated in order.
pub open spec fn flatten_chunks(chunks: Seq<Seq<u8>>) -> Seq<u8>
    decreases chunks.len(),
{
    if chunks.len() == 0 {
        Seq::empty()
    } else {
        chunks[0] + flatten_chunks(chunks.drop_first())
    }
}

/// Every byte a flow still owes: the rest of the active chunk, then the queue.
pub open spec fn pending_bytes(f: FlowView) -> Seq<u8> {
    let head = match f.active {
        Some(a) => a.bytes.subrange(a.position as int, a.bytes.len() as int),
        None => Seq::empty(),
    };
    head + flatten_chunks(f.queue)
}

/// The bytes a step hands out, whatever their destination.
pub open spec fn step_data(s: StepView) -> Seq<u8> {
    match s {
        StepView::ToTransport { data, .. } => data,
        StepView::ToApplication { data, .. } => data,
        StepView::Dropped { data, .. } => data,
        _ => Seq::empty(),
    }
}

/// Throttled pacing: at a positive rate a poll hands out at most one byte, only
/// once the character interval since the last emission has passed (up to the
/// perception threshold), and restarts the interval from `now`.
pub proof fn lemma_throttled_poll_paces_one_byte(
    f: FlowView,
    flow: DataFlow,
    rate_cps: i64,
    now: nat,
    deliver: bool,
)
    requires
        f.wf(),
        activate(f, rate_cps).active matches Some(a) && a.rate_cps > 0,
    ensures
        ({
            let (g, s) = poll_flow(f, flow, rate_cps, ThrottleMode::Throttled, now, deliver);
            let a = activate(f, rate_cps).active->Some_0;
            &&& step_data(s).len() <= 1
            &&& step_data(s).len() == 1 ==> remaining_nanos(a.rate_cps, f.last_event, now)
                <= PERCEPTION_THRESHOLD_NANOS && g.last_event == now
            &&& s is Wait ==> remaining_nanos(a.rate_cps, f.last_event, now)
                > PERCEPTION_THRESHOLD_NANOS && g == activate(f, rate_cps)
        }),
{
}

/// Unthrottled, a poll hands out everything left of the active chunk at once.
pub proof fn lemma_unthrottled_poll_flushes_chunk(
    f: FlowView,
    flow: DataFlow,
    rate_cps: i64,
    now: nat,
    deliver: bool,
)
    requires
        f.wf(),
        activate(f, rate_cps).active is Some,
    ensures
        ({
            let (g, s) = poll_flow(f, flow, rate_cps, ThrottleMode::Unthrottled, now, deliver);
            let a = activate(f, rate_cps).active->Some_0;
            &&& step_data(s) == a.bytes.subrange(a.position as int, a.bytes.len() as int)
            &&& g.active is None
            &&& g.queue == activate(f, rate_cps).queue
        }),
{
}

/// Pacing never loses, duplicates or reorders bytes: what a poll emits, followed by
/// what the flow still owes, is exactly what it owed before.
pub proof fn lemma_poll_conserves_bytes(
    f: FlowView,
    flow: DataFlow,
    rate_cps: i64,
    mode: ThrottleMode,
    now: nat,
    deliver: bool,
)
    requires
        f.wf(),
    ensures
        ({
            let (g, s) = poll_flow(f, flow, rate_cps, mode, now, deliver);
            step_data(s) + pending_bytes(g) == pending_bytes(f)
        }),
{
    let g = activate(f, rate_cps);
    if f.active is None && f.queue.len() > 0 {
        let a = g.active->Some_0;
        assert(a.bytes.subrange(0, a.bytes.len() as int) =~= a.bytes);
        assert(pending_bytes(g) =~= pending_bytes(f));
    }
    let (h, s) = poll_flow(f, flow, rate_cps, mode, now, deliver);
    match g.active {
        None => {
            assert(step_data(s) + pending_bytes(h) =~= pending_bytes(g));
        },
        Some(a) => {
            let unthrottled = mode == ThrottleMode::Unthrottled || a.rate_cps <= 0;
            let remaining = remaining_nanos(a.rate_cps, g.last_event, now);
            if !unthrottled && remaining > PERCEPTION_THRESHOLD_NANOS {
                assert(step_data(s) + pending_bytes(h) =~= pending_bytes(g));
            } else {
                let end: nat = if unthrottled { a.bytes.len() } else { a.position + 1 };
                let data = a.bytes.subrange(a.position as int, end as int);
                let rest = a.bytes.subrange(end as int, a.bytes.len() as int);
                assert(data + rest =~= a.bytes.subrange(a.position as int, a.bytes.len() as int));
                if end == a.bytes.len() {
                    assert(rest =~= Seq::<u8>::empty());
                }
                assert(step_data(s) + pending_bytes(h) =~= pending_bytes(g));
            }
        },
    }
}

/// Polling keeps a well-formed flow well formed.
pub proof fn lemma_poll_keeps_wf(
    f: FlowView,
    flow: DataFlow,
    rate_cps: i64,
    mode: ThrottleMode,
    now: nat,
    deliver: bool,
)
    requires
        f.wf(),
        now <= u64::MAX,
    ensures
        poll_flow(f, flow, rate_cps, mode, now, deliver).0.wf(),
{
    let g = activate(f, rate_cps);
    assert forall|i: int| 0 <= i < g.queue.len() implies (#[trigger] g.queue[i]).len() > 0 by {
        if f.active is None && f.queue.len() > 0 {
            assert(g.queue[i] == f.queue[i + 1]);
        }
    }
}

/// A poll never splices chunks: whatever it hands out is one contiguous piece of the
/// active chunk, starting where that chunk had got to.
pub proof fn lemma_poll_emits_within_chunk(
    f: FlowView,
    flow: DataFlow,
    rate_cps: i64,
    mode: ThrottleMode,
    now: nat,
    deliver: bool,
)
    requires
        f.wf(),
    ensures
        ({
            let (g, s) = poll_flow(f, flow, rate_cps, mode, now, deliver);
            step_data(s).len() > 0 ==> (activate(f, rate_cps).active matches Some(a) && exists|
                end: int,
            |
                a.position < end <= a.bytes.len() && step_data(s) == #[trigger] a.bytes.subrange(
                    a.position as int,
                    end,
                ))
        }),
{
    let g = activate(f, rate_cps);
    match g.active {
        None => {},
        Some(a) => {
            let unthrottled = mode == ThrottleMode::Unthrottled || a.rate_cps <= 0;
            let end: int = if unthrottled {
                a.bytes.len() as int
            } else {
                (a.position + 1) as int
            };
            let remaining = remaining_nanos(a.rate_cps, g.last_event, now);
            if unthrottled || remaining <= PERCEPTION_THRESHOLD_NANOS {
                assert(a.position < end <= a.bytes.len());
                assert(step_data(poll_flow(f, flow, rate_cps, mode, now, deliver).1)
                    == a.bytes.subrange(a.position as int, end));
            }
        },
    }
}

/// A flow polled at each of `times` in turn: the flow afterwards and every byte handed
/// out, in order.
pub open spec fn poll_run(
    f: FlowView,
    flow: DataFlow,
    rate_cps: i64,
    mode: ThrottleMode,
    times: Seq<nat>,
    deliver: bool,
) -> (FlowView, Seq<u8>)
    decreases times.len(),
{
    if times.len() == 0 {
        (f, Seq::empty())
    } else {
        let (g, out) = poll_run(f, flow, rate_cps, mode, times.drop_last(), deliver);
        let (h, s) = poll_flow(g, flow, rate_cps, mode, times.last(), deliver);
        (h, out + step_data(s))
    }
}

/// Over any number of polls no byte is lost, duplicated or reordered: what was handed
/// out followed by what is still pending is what was pending at the start.
#[verifier::spinoff_prover]
#[verifier::rlimit(40)]
pub proof fn lemma_poll_run_conserves_bytes(
    f: FlowView,
    flow: DataFlow,
    rate_cps: i64,
    mode: ThrottleMode,
    times: Seq<nat>,
    deliver: bool,
)
    requires
        f.wf(),
        forall|i: int| 0 <= i < times.len() ==> #[trigger] times[i] <= u64::MAX,
    ensures
        ({
            let (g, out) = poll_run(f, flow, rate_cps, mode, times, deliver);
            out + pending_bytes(g) == pending_bytes(f) && g.wf()
        }),
    decreases times.len(),
{
    if times.len() > 0 {
        let rest = times.drop_last();
        assert forall|i: int| 0 <= i < rest.len() implies #[trigger] rest[i] <= u64::MAX by {
            assert(rest[i] == times[i]);
        }
        lemma_poll_run_conserves_bytes(f, flow, rate_cps, mode, rest, deliver);
        let (g, out) = poll_run(f, flow, rate_cps, mode, rest, deliver);
        assert(times.last() == times[times.len() - 1]);
        lemma_poll_conserves_bytes(g, flow, rate_cps, mode, times.last(), deliver);
        lemma_poll_keeps_wf(g, flow, rate_cps, mode, times.last(), deliver);
        let (h, s) = poll_flow(g, flow, rate_cps, mode, times.last(), deliver);
        assert(out + step_data(s) + pending_bytes(h) =~= out + (step_data(s) + pending_bytes(h)));
    }
}

#[derive(Debug)]
struct ActiveChunk {
    bytes: Vec<u8>,
    position: usize,
    rate_cps: i64,
}

#[derive(Debug)]
struct FlowState {
    queue: VecDeque<Vec<u8>>,
    capacity: usize,
    active: Option<ActiveChunk>,
    last_event: Duration,
}

impl View for FlowState {
    type V = FlowView;

    closed spec fn view(&self) -> FlowView {
        FlowView {
            queue: self.queue@.map_values(|c: Vec<u8>| c@),
            capacity: self.capacity,
            active: match self.active {
                Some(a) => Some(
                    ActiveView { bytes: a.bytes@, position: a.position as nat, rate_cps: a.rate_cps },
                ),
                None => None,
            },
            last_event: self.last_event@,
        }
    }
}

impl FlowState {
    fn new(capacity: usize, initial_time: Duration) -> (f: Self)
        ensures
            f@ == (FlowView {
                queue: Seq::empty(),
                capacity,
                active: None,
                last_event: initial_time@,
            }),
            f@.wf(),
    {
        proof {
            initial_time.lemma_bounded();
        }
        let f = FlowState { queue: VecDeque::new(), capacity, active: None, last_event: initial_time };
        assert(f@.queue =~= Seq::<Seq<u8>>::empty());
        f
    }

    fn is_full(&self) -> (full: bool)
        ensures
            full == self@.is_full(),
    {
        self.capacity > 0 && self.queue.len() >= self.capacity
    }

    fn push(&mut self, data: Vec<u8>)
        ensures
            final(self)@ == (FlowView { queue: old(self)@.queue.push(data@), ..old(self)@ }),
    {
        self.queue.push_back(data);
        assert(self@.queue =~= old(self)@.queue.push(data@));
    }

    fn clear_queue(&mut self)
        ensures
            final(self)@ == (FlowView { queue: Seq::empty(), ..old(self)@ }),
    {
        self.queue.clear();
        assert(self@.queue =~= Seq::<Seq<u8>>::empty());
    }

    fn clear(&mut self)
        ensures
            final(self)@ == (FlowView { queue: Seq::empty(), active: None, ..old(self)@ }),
    {
        self.queue.clear();
        self.active = None;
        assert(self@.queue =~= Seq::<Seq<u8>>::empty());
    }

    fn is_idle(&self) -> (idle: bool)
        ensures
            idle == self@.is_idle(),
    {
        self.queue.len() == 0 && self.active.is_none()
    }

    fn ensure_active(&mut self, rate_cps: i64) -> (has_active: bool)
        requires
            old(self)@.wf(),
        ensures
            final(self)@ == activate(old(self)@, rate_cps),
            final(self)@.wf(),
            has_active == final(self)@.active is Some,
    {
        if self.active.is_none() {
            match self.queue.pop_front() {
                Some(bytes) => {
                    proof {
                        assert(old(self)@.queue[0] == bytes@);
                        assert(old(self)@.queue[0].len() > 0);
                    }
                    self.active = Some(ActiveChunk { bytes, position: 0, rate_cps });
                    assert(self@.queue =~= old(self)@.queue.drop_first());
                },
                None => {},
            }
        }
        self.active.is_some()
    }
}

fn interval_for_rate(rate_cps: i64) -> (d: Duration)
    requires
        rate_cps > 0,
    ensures
        d@ == interval_nanos(rate_cps),
{
    Duration::from_nanos(NANOS_PER_SEC / (rate_cps as u64))
}

#[derive(Debug)]
pub struct DataThrottle {
    mode: ThrottleMode,
    communication: CommunicationMode,
    tx_rate_cps: i64,
    rx_rate_cps: i64,
    tx: FlowState,
    rx: FlowState,
    loopback: FlowState,
}

impl View for DataThrottle {
    type V = ThrottleView;

    closed spec fn view(&self) -> ThrottleView {
        ThrottleView {
            mode: self.mode,
            communication: self.communication,
            tx_rate_cps: self.tx_rate_cps,
            rx_rate_cps: self.rx_rate_cps,
            tx: self.tx@,
            rx: self.rx@,
            loopback: self.loopback@,
        }
    }
}

fn poll_flow_exec(
    state: &mut FlowState,
    flow: DataFlow,
    rate_cps: i64,
    mode: ThrottleMode,
    now: Duration,
    deliver: bool,
) -> (step: ThrottleStep)
    requires
        old(state)@.wf(),
    ensures
        (final(state)@, step_view(step)) == poll_flow(old(state)@, flow, rate_cps, mode, now@, deliver),
        final(state)@.wf(),
{
    proof {
        now.lemma_bounded();
    }
    if !state.ensure_active(rate_cps) {
        return ThrottleStep::Idle;
    }
    let ghost g = state@;
    let active_rate = match &state.active {
        Some(a) => a.rate_cps,
        None => rate_cps,
    };
    let unthrottled = match mode {
        ThrottleMode::Unthrottled => true,
        ThrottleMode::Throttled => false,
    } || active_rate <= 0;
    if !unthrottled {
        let interval = interval_for_rate(active_rate);
        let elapsed = now.saturating_sub(state.last_event);
        let remaining = interval.saturating_sub(elapsed);
        if remaining.as_nanos() > PERCEPTION_THRESHOLD_NANOS {
            return ThrottleStep::Wait { flow, duration: remaining };
        }
    }
    let mut active = match state.active.take() {
        Some(a) => a,
        None => {
            return ThrottleStep::Idle;
        },
    };
    let ghost position0 = active.position;
    assert(g.active == Some(
        ActiveView { bytes: active.bytes@, position: active.position as nat, rate_cps: active.rate_cps },
    ));
    assert(active.position < active.bytes@.len());
    let data = if unthrottled {
        let mut rest: Vec<u8> = Vec::new();
        let mut i = active.position;
        while i < active.bytes.len()
            invariant
                position0 <= i <= active.bytes@.len(),
                rest@ == active.bytes@.subrange(position0 as int, i as int),
            decreases active.bytes@.len() - i,
        {
            rest.push(active.bytes[i]);
            assert(active.bytes@.subrange(position0 as int, i + 1) =~= active.bytes@.subrange(
                position0 as int,
                i as int,
            ).push(active.bytes@[i as int]));
            i += 1;
        }
        active.position = active.bytes.len();
        rest
    } else {
        let byte = active.bytes[active.position];
        let len = active.bytes.len();
        assert(active.position < len);
        active.position = active.position + 1;
        let mut one: Vec<u8> = Vec::new();
        one.push(byte);
        assert(one@ =~= active.bytes@.subrange(position0 as int, position0 + 1));
        one
    };
    if active.position < active.bytes.len() {
        state.active = Some(active);
    }
    state.last_event = now;
    if !deliver {
        return ThrottleStep::Dropped { flow, data };
    }
    let output = match flow {
        DataFlow::Tx => ThrottleOutput::ToTransport(TransportCommand::Send(data)),
        DataFlow::Rx => ThrottleOutput::ToApplication(data),
        DataFlow::Loopback => ThrottleOutput::ToApplication(data),
    };
    ThrottleStep::Output { flow, output }
}

impl DataThrottle {
    pub fn new(config: ThrottleConfig, initial_time: Duration) -> (t: Self)
        ensures
            t@.wf(),
            t@.mode == ThrottleMode::Throttled,
            t@.communication == CommunicationMode::Line,
            t@.tx_rate_cps == config.tx_rate_cps,
            t@.rx_rate_cps == config.rx_rate_cps,
            t@.tx == (FlowView {
                queue: Seq::empty(),
                capacity: config.tx_queue_capacity,
                active: None,
                last_event: initial_time@,
            }),
            t@.rx == (FlowView {
                queue: Seq::empty(),
                capacity: config.rx_queue_capacity,
                active: None,
                last_event: initial_time@,
            }),
            t@.loopback == (FlowView {
                queue: Seq::empty(),
                capacity: LOOPBACK_QUEUE_CAPACITY,
                active: None,
                last_event: initial_time@,
            }),
    {
        DataThrottle {
            mode: ThrottleMode::Throttled,
            communication: CommunicationMode::Line,
            tx_rate_cps: config.tx_rate_cps,
            rx_rate_cps: config.rx_rate_cps,
            tx: FlowState::new(config.tx_queue_capacity, initial_time),
            rx: FlowState::new(config.rx_queue_capacity, initial_time),
            loopback: FlowState::new(LOOPBACK_QUEUE_CAPACITY, initial_time),
        }
    }

    pub fn handle_application_command(&mut self, command: ApplicationCommand) -> (result: Result<
        EnqueueOutcome,
        RejectedData,
    >)
        requires
            old(self)@.wf(),
        ensures
            final(self)@.wf(),
            final(self)@ == command_effect(old(self)@, command).0,
            enqueue_matches(result, command_effect(old(self)@, command).1, command_data(command)),
            result matches Err(r) ==> command == ApplicationCommand::Transmit(r.data),
    {
        match command {
            ApplicationCommand::Transmit(data) => self.enqueue_tx(data),
            ApplicationCommand::SetCommunicationMode(mode) => {
                self.set_communication_mode(mode);
                Ok(EnqueueOutcome::Applied)
            },
            ApplicationCommand::SetThrottleMode(mode) => {
                self.mode = mode;
                Ok(EnqueueOutcome::Applied)
            },
            ApplicationCommand::SetTxRate(rate) => {
                self.tx_rate_cps = rate;
                Ok(EnqueueOutcome::Applied)
            },
            ApplicationCommand::SetRxRate(rate) => {
                self.rx_rate_cps = rate;
                Ok(EnqueueOutcome::Applied)
            },
            ApplicationCommand::SetPrinterEnabled(_) => Ok(EnqueueOutcome::Applied),
        }
    }

    pub fn handle_transport_event(&mut self, event: TransportEvent) -> (result: Result<
        EnqueueOutcome,
        RejectedData,
    >)
        requires
            old(self)@.wf(),
        ensures
            final(self)@.wf(),
            match event {
                TransportEvent::Received(data) => final(self)@ == enqueue_rx(old(self)@, data@).0
                    && enqueue_matches(result, enqueue_rx(old(self)@, data@).1, data@),
                TransportEvent::Failed { .. } => final(self)@ == old(self)@ && result == Ok::<
                    EnqueueOutcome,
                    RejectedData,
                >(EnqueueOutcome::IgnoredTransportFailure),
            },
    {
        match event {
            TransportEvent::Received(data) => self.enqueue_rx(data),
            TransportEvent::Failed { .. } => Ok(EnqueueOutcome::IgnoredTransportFailure),
        }
    }

    pub fn enqueue_tx(&mut self, data: Vec<u8>) -> (result: Result<EnqueueOutcome, RejectedData>)
        requires
            old(self)@.wf(),
        ensures
            final(self)@.wf(),
            final(self)@ == enqueue_tx(old(self)@, data@).0,
            enqueue_matches(result, enqueue_tx(old(self)@, data@).1, data@),
            result matches Err(r) ==> r.data == data,
    {
        if data.len() == 0 {
            return Ok(EnqueueOutcome::IgnoredEmpty);
        }
        match self.communication {
            CommunicationMode::Line => {
                if self.tx.is_full() {
                    return Err(
                        RejectedData {
                            backpressure: Backpressure {
                                flow: DataFlow::Tx,
                                capacity_chunks: self.tx.capacity,
                            },
                            data,
                        },
                    );
                }
                self.tx.push(data);
            },
            CommunicationMode::Local => {
                if self.loopback.is_full() {
                    return Err(
                        RejectedData {
                            backpressure: Backpressure {
                                flow: DataFlow::Loopback,
                                capacity_chunks: self.loopback.capacity,
                            },
                            data,
                        },
                    );
                }
                self.loopback.push(data);
            },
        }
        Ok(EnqueueOutcome::Queued)
    }

    pub fn enqueue_rx(&mut self, data: Vec<u8>) -> (result: Result<EnqueueOutcome, RejectedData>)
        requires
            old(self)@.wf(),
        ensures
            final(self)@.wf(),
            final(self)@ == enqueue_rx(old(self)@, data@).0,
            enqueue_matches(result, enqueue_rx(old(self)@, data@).1, data@),
    {
        if data.len() == 0 {
            return Ok(EnqueueOutcome::IgnoredEmpty);
        }
        match self.communication {
            CommunicationMode::Local => {
                return Ok(EnqueueOutcome::IgnoredDuringLoopback);
            },
            CommunicationMode::Line => {},
        }
        if self.rx.is_full() {
            return Err(
                RejectedData {
                    backpressure: Backpressure { flow: DataFlow::Rx, capacity_chunks: self.rx.capacity },
                    data,
                },
            );
        }
        self.rx.push(data);
        Ok(EnqueueOutcome::Queued)
    }

    /// Every switch to LOCAL clears queued loopback data, even when LOCAL was already set.
    pub fn set_communication_mode(&mut self, mode: CommunicationMode)
        requires
            old(self)@.wf(),
        ensures
            final(self)@.wf(),
            final(self)@ == set_communication_mode(old(self)@, mode),
    {
        match mode {
            CommunicationMode::Local => self.loopback.clear_queue(),
            CommunicationMode::Line => {},
        }
        self.communication = mode;
    }

    pub fn communication_mode(&self) -> (mode: CommunicationMode)
        ensures
            mode == self@.communication,
    {
        self.communication
    }

    /// Discard only bytes destined for an external transport.
    ///
    /// RX and local loopback state are kept.
    pub fn clear_external_tx(&mut self)
        requires
            old(self)@.wf(),
        ensures
            final(self)@.wf(),
            final(self)@ == (ThrottleView {
                tx: FlowView { queue: Seq::empty(), active: None, ..old(self)@.tx },
                ..old(self)@
            }),
    {
        self.tx.clear();
    }

    pub fn transmit_idle(&self) -> (idle: bool)
        ensures
            idle == self@.transmit_idle(),
    {
        self.tx.is_idle() && self.loopback.is_idle()
    }

    pub fn set_throttle_mode(&mut self, mode: ThrottleMode)
        ensures
            final(self)@ == (ThrottleView { mode, ..old(self)@ }),
    {
        self.mode = mode;
    }

    pub fn set_tx_rate(&mut self, rate_cps: i64)
        ensures
            final(self)@ == (ThrottleView { tx_rate_cps: rate_cps, ..old(self)@ }),
    {
        self.tx_rate_cps = rate_cps;
    }

    pub fn set_rx_rate(&mut self, rate_cps: i64)
        ensures
            final(self)@ == (ThrottleView { rx_rate_cps: rate_cps, ..old(self)@ }),
    {
        self.rx_rate_cps = rate_cps;
    }

    pub fn poll_tx(&mut self, now: Duration) -> (step: ThrottleStep)
        requires
            old(self)@.wf(),
        ensures
            final(self)@.wf(),
            ({
                let (f, s) = poll_flow(
                    old(self)@.tx,
                    DataFlow::Tx,
                    old(self)@.tx_rate_cps,
                    old(self)@.mode,
                    now@,
                    old(self)@.communication == CommunicationMode::Line,
                );
                final(self)@ == (ThrottleView { tx: f, ..old(self)@ }) && step_view(step) == s
            }),
    {
        let deliver = match self.communication {
            CommunicationMode::Line => true,
            CommunicationMode::Local => false,
        };
        poll_flow_exec(&mut self.tx, DataFlow::Tx, self.tx_rate_cps, self.mode, now, deliver)
    }

    pub fn poll_rx(&mut self, now: Duration) -> (step: ThrottleStep)
        requires
            old(self)@.wf(),
        ensures
            final(self)@.wf(),
            ({
                let (f, s) = poll_flow(
                    old(self)@.rx,
                    DataFlow::Rx,
                    old(self)@.rx_rate_cps,
                    old(self)@.mode,
                    now@,
                    old(self)@.communication == CommunicationMode::Line,
                );
                final(self)@ == (ThrottleView { rx: f, ..old(self)@ }) && step_view(step) == s
            }),
    {
        let deliver = match self.communication {
            CommunicationMode::Line => true,
            CommunicationMode::Local => false,
        };
        poll_flow_exec(&mut self.rx, DataFlow::Rx, self.rx_rate_cps, self.mode, now, deliver)
    }

    /// Loopback chunks are paced at the transmit rate.
    pub fn poll_loopback(&mut self, now: Duration) -> (step: ThrottleStep)
        requires
            old(self)@.wf(),
        ensures
            final(self)@.wf(),
            ({
                let (f, s) = poll_flow(
                    old(self)@.loopback,
                    DataFlow::Loopback,
                    old(self)@.tx_rate_cps,
                    old(self)@.mode,
                    now@,
                    old(self)@.communication == CommunicationMode::Local,
                );
                final(self)@ == (ThrottleView { loopback: f, ..old(self)@ }) && step_view(step) == s
            }),
    {
        let deliver = match self.communication {
            CommunicationMode::Line => false,
            CommunicationMode::Local => true,
        };
        poll_flow_exec(
            &mut self.loopback,
            DataFlow::Loopback,
            self.tx_rate_cps,
            self.mode,
            now,
            deliver,
        )
    }
}

} // verus!
