//! Deterministic, bounded paper-tape reader scheduling.
//!
//! At most one byte read from the tape is outstanding at a time: either pending
//! (offered but refused) or in flight (accepted but not yet confirmed delivered).
//! Rolling back restores the head to the position before that byte.

use vstd::prelude::*;
use vstd::slice::slice_subrange;
use crate::domain::config::InputReturnMode;
use crate::domain::events::CommunicationMode;
use crate::domain::paper_tape::{
    PaperTape, ReaderState, ReaderStep, ReaderView, SeekError, TapeReader, reader_step,
};
use crate::domain::time::Duration;
use crate::app::runtime::{ImmediateTransmit, RuntimeError};

verus! {

/// Nanoseconds between two reader bytes offered to the runtime.
pub const READER_FEED_INTERVAL_NANOS: u64 = 3_000_000;

/// Nanoseconds before a refused byte is offered again.
pub const READER_RETRY_NANOS: u64 = 1_000_000;

/// The reader pacing interval.
pub fn reader_feed_interval() -> (d: Duration)
    ensures
        d@ == READER_FEED_INTERVAL_NANOS,
{
    Duration::from_nanos(READER_FEED_INTERVAL_NANOS)
}

/// Whether the reader's bytes have somewhere to go: LOCAL loops them back to the
/// printer, LINE needs the serial connection. A reader is not started, and a
/// byte is not confirmed, without a route.
pub fn reader_route_available(mode: CommunicationMode, connected: bool) -> (available: bool)
    ensures
        available == (mode == CommunicationMode::Local || connected),
{
    match mode {
        CommunicationMode::Local => true,
        CommunicationMode::Line => connected,
    }
}

/// A byte read from the tape, with the one or two bytes it is transmitted as.
#[derive(Debug, Clone, Copy, PartialEq, Eq)]
pub struct ReaderEmission {
    pub source_byte: u8,
    pub source_offset: usize,
    tx_bytes: [u8; 2],
    len: u8,
    normalization_epoch: u64,
}

impl ReaderEmission {
    /// The bytes to transmit.
    pub closed spec fn bytes(self) -> Seq<u8> {
        self.tx_bytes@.take(self.len as int)
    }

    /// The byte as it was read from the tape.
    pub closed spec fn byte_read(self) -> u8 {
        self.source_byte
    }

    /// Where on the tape the byte was read.
    pub closed spec fn offset_read(self) -> usize {
        self.source_offset
    }

    pub closed spec fn epoch(self) -> u64 {
        self.normalization_epoch
    }

    pub closed spec fn wf(self) -> bool {
        1 <= self.len <= 2
    }

    pub fn as_slice(&self) -> (bytes: &[u8])
        requires
            self.wf(),
        ensures
            bytes@ == self.bytes(),
    {
        let all = self.tx_bytes.as_slice();
        slice_subrange(all, 0, self.len as usize)
    }
}

/// Whether the runtime took the offered emission or handed it back.
#[derive(Debug, Clone, PartialEq, Eq)]
pub enum FeedResult {
    Accepted,
    Backpressured(ReaderEmission),
}

/// A byte whose delivery has been confirmed, and where it was on the tape.
#[derive(Debug, Clone, Copy, PartialEq, Eq, Structural)]
pub struct ConfirmedReaderByte {
    pub byte: u8,
    pub source_offset: usize,
}

/// Line-ending normalization of one byte read from the tape: the two transmit slots
/// and how many of them are used.
///
/// In CR+LF mode a CR is followed by LF unless the tape's next byte already is LF, and
/// an LF is preceded by CR unless the previous confirmed byte was a CR immediately
/// before it on the tape. Inserted bytes carry the parity bit of the byte read.
pub open spec fn normalized(
    emitted: u8,
    source_offset: usize,
    next_physical_byte: Option<u8>,
    last_confirmed: Option<ConfirmedReaderByte>,
    mode: InputReturnMode,
) -> (u8, u8, u8) {
    let control_msb = emitted & 0x80;
    if mode == InputReturnMode::CrLf && emitted & 0x7f == 0x0d {
        if next_physical_byte is Some && next_physical_byte->Some_0 & 0x7f == 0x0a {
            (emitted, 0, 1)
        } else {
            (emitted, control_msb | 0x0a, 2)
        }
    } else if mode == InputReturnMode::CrLf && emitted & 0x7f == 0x0a {
        if last_confirmed is Some && last_confirmed->Some_0.source_offset + 1 == source_offset
            && last_confirmed->Some_0.byte & 0x7f == 0x0d {
            (emitted, 0, 1)
        } else {
            (control_msb | 0x0d, emitted, 2)
        }
    } else {
        (emitted, 0, 1)
    }
}

pub fn normalize_reader_emission(
    emitted_byte: u8,
    source_offset: usize,
    next_physical_byte: Option<u8>,
    last_confirmed_source: Option<ConfirmedReaderByte>,
    return_mode: InputReturnMode,
) -> (result: ([u8; 2], u8))
    ensures
        ({
            let (a, b, n) = normalized(
                emitted_byte,
                source_offset,
                next_physical_byte,
                last_confirmed_source,
                return_mode,
            );
            result.0@ == seq![a, b] && result.1 == n
        }),
{
    let crlf = match return_mode {
        InputReturnMode::CrLf => true,
        InputReturnMode::Cr => false,
    };
    if crlf {
        let control_msb = emitted_byte & 0x80;
        if emitted_byte & 0x7f == 0x0d {
            let next_is_lf = match next_physical_byte {
                Some(byte) => byte & 0x7f == 0x0a,
                None => false,
            };
            if next_is_lf {
                return ([emitted_byte, 0], 1);
            }
            return ([emitted_byte, control_msb | 0x0a], 2);
        }
        if emitted_byte & 0x7f == 0x0a {
            let follows_confirmed_cr = match last_confirmed_source {
                Some(previous) => previous.source_offset < usize::MAX && previous.source_offset + 1
                    == source_offset && previous.byte & 0x7f == 0x0d,
                None => false,
            };
            if follows_confirmed_cr {
                return ([emitted_byte, 0], 1);
            }
            return ([control_msb | 0x0d, emitted_byte], 2);
        }
    }
    ([emitted_byte, 0], 1)
}

/// Abstract feed state.
pub struct FeedView {
    pub reader: ReaderView,
    pub return_mode: InputReturnMode,
    pub pending: Option<ReaderEmission>,
    pub checkpoint: Option<usize>,
    pub in_flight: Option<ReaderEmission>,
    pub last_confirmed: Option<ConfirmedReaderByte>,
    pub epoch: u64,
    pub next_due: nat,
}

impl FeedView {
    pub open spec fn outstanding(self) -> nat {
        if self.pending is Some || self.in_flight is Some {
            1
        } else {
            0
        }
    }
}

/// The feed after the runtime answered an offered emission: an accepted one is in
/// flight and the next byte is due one feed interval later; a refused one is kept
/// pending and retried after the retry delay.
pub open spec fn feed_answered(
    before: FeedView,
    now: nat,
    offered: ReaderEmission,
    answer: FeedResult,
    after: FeedView,
    delay: Option<Duration>,
) -> bool {
    match answer {
        FeedResult::Accepted => {
            &&& delay matches Some(d) && d@ == READER_FEED_INTERVAL_NANOS
            &&& after == (FeedView {
                in_flight: Some(offered),
                next_due: if now + READER_FEED_INTERVAL_NANOS <= u64::MAX {
                    (now + READER_FEED_INTERVAL_NANOS) as nat
                } else {
                    u64::MAX as nat
                },
                ..before
            })
        },
        FeedResult::Backpressured(e) => {
            &&& delay matches Some(d) && d@ == READER_RETRY_NANOS
            &&& after == (FeedView { pending: Some(e), ..before })
        },
    }
}

/// The emission offered for byte `b`, read at the head of `before` and followed on the
/// tape as `after_read` shows, normalized against the next physical byte.
pub open spec fn emission_for(
    before: FeedView,
    after_read: ReaderView,
    b: u8,
    e: ReaderEmission,
) -> bool {
    let position = before.reader.position;
    let next = if after_read.position < after_read.tape->Some_0.len() {
        Some(after_read.tape->Some_0[after_read.position as int])
    } else {
        None::<u8>
    };
    let (x, y, n) = normalized(b, position as usize, next, before.last_confirmed, before.return_mode);
    &&& e.byte_read() == b
    &&& e.offset_read() == position
    &&& e.bytes() == seq![x, y].take(n as int)
    &&& e.epoch() == before.epoch
    &&& e.wf()
}

/// The feed with its unconfirmed byte rolled back: the head returns to the checkpoint
/// (when it is on the tape) and nothing is pending or in flight.
pub open spec fn rolled_back(v: FeedView) -> FeedView {
    FeedView {
        reader: match v.checkpoint {
            Some(p) => match v.reader.tape {
                Some(t) => if p <= t.len() {
                    ReaderView { position: p as nat, stop_cause: None, ..v.reader }
                } else {
                    v.reader
                },
                None => v.reader,
            },
            None => v.reader,
        },
        checkpoint: None,
        pending: None,
        in_flight: None,
        ..v
    }
}

/// A loaded reader, stopped.
pub open spec fn reader_stopped(r: ReaderView) -> ReaderView {
    if r.tape is Some {
        ReaderView { state: ReaderState::Stopped, ..r }
    } else {
        r
    }
}

/// How the runtime's answer to an offered emission is recorded, and whether the reader
/// must stop: a taken emission is accepted; anything else is refused and kept, and a
/// LINE refusal for want of a connection also stops the reader.
pub fn feed_answer<E>(answer: &Result<ImmediateTransmit, RuntimeError<E>>, emission: ReaderEmission) -> (result: (
    FeedResult,
    bool,
))
    ensures
        result == match answer {
            Ok(ImmediateTransmit::Accepted) => (FeedResult::Accepted, false),
            Ok(ImmediateTransmit::Disconnected(_)) => (FeedResult::Backpressured(emission), true),
            _ => (FeedResult::Backpressured(emission), false),
        },
{
    match answer {
        Ok(ImmediateTransmit::Accepted) => (FeedResult::Accepted, false),
        Ok(ImmediateTransmit::Disconnected(_)) => (FeedResult::Backpressured(emission), true),
        _ => (FeedResult::Backpressured(emission), false),
    }
}

/// What a tick decided before the runtime is asked to take a byte.
#[derive(Debug, Clone, PartialEq, Eq)]
pub enum TickPlan {
    /// Nothing to offer; the delay before the feed wants another tick, if any.
    Done(Option<Duration>),
    /// Offer this emission to the runtime.
    Offer(ReaderEmission),
}

#[derive(Debug)]
pub struct ReaderFeed {
    reader: TapeReader,
    return_mode: InputReturnMode,
    pending: Option<ReaderEmission>,
    checkpoint: Option<usize>,
    in_flight: Option<ReaderEmission>,
    last_confirmed_source: Option<ConfirmedReaderByte>,
    normalization_epoch: u64,
    next_due: Duration,
}

impl View for ReaderFeed {
    type V = FeedView;

    closed spec fn view(&self) -> FeedView {
        FeedView {
            reader: self.reader@,
            return_mode: self.return_mode,
            pending: self.pending,
            checkpoint: self.checkpoint,
            in_flight: self.in_flight,
            last_confirmed: self.last_confirmed_source,
            epoch: self.normalization_epoch,
            next_due: self.next_due@,
        }
    }
}

impl ReaderFeed {
    /// The reader keeps its invariants, at most one byte is outstanding and every
    /// emission carries one or two bytes.
    pub closed spec fn wf(&self) -> bool {
        &&& self.reader.inv()
        &&& !(self.pending is Some && self.in_flight is Some)
        &&& (self.pending matches Some(e) ==> e.wf())
        &&& (self.in_flight matches Some(e) ==> e.wf())
    }

    pub fn new(reader: TapeReader, now: Duration, return_mode: InputReturnMode) -> (feed: Self)
        requires
            reader.inv(),
        ensures
            feed.wf(),
            feed@ == (FeedView {
                reader: reader@,
                return_mode,
                pending: None,
                checkpoint: None,
                in_flight: None,
                last_confirmed: None,
                epoch: 0,
                next_due: now@,
            }),
    {
        ReaderFeed {
            reader,
            return_mode,
            pending: None,
            checkpoint: None,
            in_flight: None,
            last_confirmed_source: None,
            normalization_epoch: 0,
            next_due: now,
        }
    }

    pub fn reader(&self) -> (reader: &TapeReader)
        ensures
            reader@ == self@.reader,
            self.wf() ==> reader.inv(),
    {
        &self.reader
    }

    /// Direct access to the reader, for switching it on and off.
    pub fn reader_mut(&mut self) -> (reader: &mut TapeReader)
        ensures
            reader@ == old(self)@.reader,
            final(self)@ == (FeedView { reader: final(reader)@, ..old(self)@ }),
            old(self).wf() ==> reader.inv(),
            old(self).wf() && final(reader).inv() ==> final(self).wf(),
    {
        &mut self.reader
    }

    pub fn load(&mut self, tape: PaperTape)
        requires
            old(self).wf(),
            tape.wf(),
        ensures
            final(self).wf(),
            final(self)@ == (FeedView {
                reader: ReaderView {
                    tape: Some(tape@),
                    position: 0,
                    state: ReaderState::Stopped,
                    ..old(self)@.reader
                },
                pending: None,
                checkpoint: None,
                in_flight: None,
                last_confirmed: None,
                epoch: old(self)@.epoch.wrapping_add(1),
                ..old(self)@
            }),
    {
        self.clear_pending();
        self.reader.load(tape);
    }

    pub fn unload(&mut self) -> (tape: Option<PaperTape>)
        requires
            old(self).wf(),
        ensures
            final(self).wf(),
            final(self)@ == (FeedView {
                reader: ReaderView {
                    tape: None,
                    position: 0,
                    state: ReaderState::Unloaded,
                    ..old(self)@.reader
                },
                pending: None,
                checkpoint: None,
                in_flight: None,
                last_confirmed: None,
                epoch: old(self)@.epoch.wrapping_add(1),
                ..old(self)@
            }),
            match tape {
                Some(t) => old(self)@.reader.tape == Some(t@),
                None => old(self)@.reader.tape is None,
            },
    {
        self.clear_pending();
        self.reader.unload()
    }

    pub fn rewind(&mut self) -> (rewound: bool)
        requires
            old(self).wf(),
        ensures
            final(self).wf(),
            rewound == (old(self)@.reader.tape is Some && old(self)@.reader.state
                != ReaderState::Running && old(self)@.reader.position > 0),
            final(self)@ == if rewound {
                FeedView {
                    reader: ReaderView { position: 0, ..old(self)@.reader },
                    pending: None,
                    checkpoint: None,
                    in_flight: None,
                    last_confirmed: None,
                    epoch: old(self)@.epoch.wrapping_add(1),
                    ..old(self)@
                }
            } else {
                old(self)@
            },
    {
        let rewound = self.reader.rewind();
        if rewound {
            self.clear_pending();
        }
        rewound
    }

    /// A different line-ending mode forgets the confirmed-CR context.
    pub fn set_return_mode(&mut self, return_mode: InputReturnMode)
        requires
            old(self).wf(),
        ensures
            final(self).wf(),
            final(self)@ == if old(self)@.return_mode != return_mode {
                FeedView {
                    return_mode,
                    last_confirmed: None,
                    epoch: old(self)@.epoch.wrapping_add(1),
                    ..old(self)@
                }
            } else {
                old(self)@
            },
    {
        if self.return_mode != return_mode {
            self.return_mode = return_mode;
            self.last_confirmed_source = None;
            self.normalization_epoch = self.normalization_epoch.wrapping_add(1);
        }
    }

    /// How many read bytes are outstanding: never more than one.
    pub fn pending_count(&self) -> (n: usize)
        ensures
            n == self@.outstanding(),
    {
        if self.pending.is_some() || self.in_flight.is_some() {
            1
        } else {
            0
        }
    }

    pub fn clear_pending(&mut self)
        requires
            old(self).wf(),
        ensures
            final(self).wf(),
            final(self)@ == (FeedView {
                pending: None,
                checkpoint: None,
                in_flight: None,
                last_confirmed: None,
                epoch: old(self)@.epoch.wrapping_add(1),
                ..old(self)@
            }),
    {
        self.pending = None;
        self.checkpoint = None;
        self.in_flight = None;
        self.last_confirmed_source = None;
        self.normalization_epoch = self.normalization_epoch.wrapping_add(1);
    }

    pub fn awaiting_confirmation(&self) -> (waiting: bool)
        ensures
            waiting == self@.in_flight is Some,
    {
        self.in_flight.is_some()
    }

    /// Stop the reader because its bytes have nowhere to go; nothing else changes.
    pub fn stop_for_missing_route(&mut self)
        requires
            old(self).wf(),
        ensures
            final(self).wf(),
            final(self)@ == (FeedView { reader: reader_stopped(old(self)@.reader), ..old(self)@ }),
    {
        self.reader.stop();
    }

    /// Confirm the byte in flight when it has surely been delivered: its route is
    /// available and the runtime has no application transmit left before the boundary.
    pub fn confirm_if_delivered(&mut self, route_available: bool, transmit_idle: bool) -> (confirmed:
        bool)
        requires
            old(self).wf(),
        ensures
            final(self).wf(),
            confirmed == (old(self)@.in_flight is Some && route_available && transmit_idle),
            !confirmed ==> final(self)@ == old(self)@,
            confirmed ==> ({
                let e = old(self)@.in_flight->Some_0;
                let c = ConfirmedReaderByte { byte: e.byte_read(), source_offset: e.offset_read() };
                final(self)@ == (FeedView {
                    in_flight: None,
                    checkpoint: None,
                    last_confirmed: if e.epoch() == old(self)@.epoch {
                        Some(c)
                    } else {
                        old(self)@.last_confirmed
                    },
                    ..old(self)@
                })
            }),
    {
        if self.in_flight.is_some() && route_available && transmit_idle {
            self.confirm_transmitted();
            true
        } else {
            false
        }
    }

    /// Commit the byte in flight once it has reached the runtime's transport or
    /// terminal boundary. It becomes the confirmed context for line endings when no
    /// seek or mode change happened since it was read.
    pub fn confirm_transmitted(&mut self) -> (confirmed: Option<ConfirmedReaderByte>)
        requires
            old(self).wf(),
        ensures
            final(self).wf(),
            match old(self)@.in_flight {
                Some(e) => {
                    let c = ConfirmedReaderByte { byte: e.byte_read(), source_offset: e.offset_read() };
                    &&& confirmed == Some(c)
                    &&& final(self)@ == (FeedView {
                        in_flight: None,
                        checkpoint: None,
                        last_confirmed: if e.epoch() == old(self)@.epoch {
                            Some(c)
                        } else {
                            old(self)@.last_confirmed
                        },
                        ..old(self)@
                    })
                },
                None => confirmed is None && final(self)@ == (FeedView {
                    checkpoint: None,
                    ..old(self)@
                }),
            },
    {
        let confirmed = match self.in_flight.take() {
            Some(emission) => {
                let confirmed = ConfirmedReaderByte {
                    byte: emission.source_byte,
                    source_offset: emission.source_offset,
                };
                if emission.normalization_epoch == self.normalization_epoch {
                    self.last_confirmed_source = Some(confirmed);
                }
                Some(confirmed)
            },
            None => None,
        };
        self.checkpoint = None;
        confirmed
    }

    /// Restore the position captured before the single unconfirmed byte.
    pub fn rollback_unconfirmed(&mut self)
        requires
            old(self).wf(),
        ensures
            final(self).wf(),
            final(self)@ == rolled_back(old(self)@),
    {
        match self.checkpoint.take() {
            Some(position) => self.reader.restore_position(position),
            None => {},
        }
        self.pending = None;
        self.in_flight = None;
    }

    /// Roll back the outstanding byte and stop the reader before its route changes.
    pub fn pause_for_mode_change(&mut self) -> (paused: bool)
        requires
            old(self).wf(),
        ensures
            final(self).wf(),
            paused == (old(self)@.reader.state == ReaderState::Running || old(self)@.outstanding()
                != 0),
            !paused ==> final(self)@ == old(self)@,
            paused ==> final(self)@.outstanding() == 0 && final(self)@.checkpoint is None
                && final(self)@.reader.state != ReaderState::Running,
            paused ==> final(self)@ == (FeedView {
                reader: reader_stopped(rolled_back(old(self)@).reader),
                ..rolled_back(old(self)@)
            }),
            paused && old(self)@.reader.state == ReaderState::Running ==> final(self)@.reader.state
                == ReaderState::Stopped,
    {
        let running = match self.reader.state() {
            ReaderState::Running => true,
            _ => false,
        };
        if running || self.pending_count() != 0 {
            self.rollback_unconfirmed();
            proof {
                self.reader.lemma_inv_view();
            }
            self.reader.stop();
            true
        } else {
            false
        }
    }

    /// Seeking needs a stopped reader; it drops the outstanding byte and the
    /// confirmed-CR context before moving the head.
    pub fn seek(&mut self, position: usize) -> (result: Result<(), SeekError>)
        requires
            old(self).wf(),
        ensures
            final(self).wf(),
            old(self)@.reader.state == ReaderState::Running ==> result == Err::<(), SeekError>(
                SeekError::Running,
            ) && final(self)@ == old(self)@,
            old(self)@.reader.state != ReaderState::Running ==> {
                &&& final(self)@.outstanding() == 0
                &&& final(self)@.checkpoint is None
                &&& final(self)@.last_confirmed is None
                &&& final(self)@.epoch == old(self)@.epoch.wrapping_add(1)
                &&& (result is Ok <==> (old(self)@.reader.tape is Some && position
                    <= old(self)@.reader.tape->Some_0.len()))
                &&& (result is Ok ==> final(self)@.reader.position == position)
            },
    {
        match self.reader.state() {
            ReaderState::Running => {
                return Err(SeekError::Running);
            },
            _ => {},
        }
        self.rollback_unconfirmed();
        self.last_confirmed_source = None;
        self.normalization_epoch = self.normalization_epoch.wrapping_add(1);
        self.reader.seek(position)
    }

    /// Decide what this tick offers, without asking the runtime yet.
    pub fn begin_tick(&mut self, now: Duration) -> (plan: TickPlan)
        requires
            old(self).wf(),
        ensures
            final(self).wf(),
            old(self)@.reader.state != ReaderState::Running ==> plan == TickPlan::Done(None)
                && final(self)@ == old(self)@,
            old(self)@.reader.state == ReaderState::Running && old(self)@.in_flight is Some
                ==> plan == TickPlan::Done(None) && final(self)@ == old(self)@,
            old(self)@.reader.state == ReaderState::Running && old(self)@.in_flight is None
                && now@ < old(self)@.next_due ==> final(self)@ == old(self)@ && match plan {
                TickPlan::Done(Some(d)) => d@ == old(self)@.next_due - now@,
                _ => false,
            },
            old(self)@.reader.state == ReaderState::Running && old(self)@.in_flight is None
                && now@ >= old(self)@.next_due && old(self)@.pending is Some ==> plan
                == TickPlan::Offer(old(self)@.pending->Some_0) && final(self)@ == (FeedView {
                pending: None,
                ..old(self)@
            }),
            old(self)@.reader.state == ReaderState::Running && old(self)@.in_flight is None
                && now@ >= old(self)@.next_due && old(self)@.pending is None ==> {
                let (r, step) = reader_step(old(self)@.reader);
                match step {
                    ReaderStep::Byte(b) => {
                        let position = old(self)@.reader.position;
                        let next = if r.position < r.tape->Some_0.len() {
                            Some(r.tape->Some_0[r.position as int])
                        } else {
                            None::<u8>
                        };
                        let (x, y, n) = normalized(
                            b,
                            position as usize,
                            next,
                            old(self)@.last_confirmed,
                            old(self)@.return_mode,
                        );
                        &&& final(self)@ == (FeedView {
                            reader: r,
                            checkpoint: Some(position as usize),
                            ..old(self)@
                        })
                        &&& plan matches TickPlan::Offer(e) && e.byte_read() == b && e.offset_read()
                            == position && e.bytes() == seq![x, y].take(n as int) && e.epoch()
                            == old(self)@.epoch && e.wf()
                    },
                    _ => plan == TickPlan::Done(None) && final(self)@ == (FeedView {
                        reader: r,
                        ..old(self)@
                    }),
                }
            },
    {
        match self.reader.state() {
            ReaderState::Running => {},
            _ => {
                return TickPlan::Done(None);
            },
        }
        if self.in_flight.is_some() {
            return TickPlan::Done(None);
        }
        if now.is_before(&self.next_due) {
            return TickPlan::Done(Some(self.next_due.saturating_sub(now)));
        }
        match self.pending.take() {
            Some(emission) => TickPlan::Offer(emission),
            None => {
                let checkpoint = self.reader.position();
                match self.reader.step() {
                    ReaderStep::Byte(byte) => {
                        self.checkpoint = Some(checkpoint);
                        let next_byte = self.next_physical_byte();
                        let (tx_bytes, len) = normalize_reader_emission(
                            byte,
                            checkpoint,
                            next_byte,
                            self.last_confirmed_source,
                            self.return_mode,
                        );
                        let emission = ReaderEmission {
                            source_byte: byte,
                            source_offset: checkpoint,
                            tx_bytes,
                            len,
                            normalization_epoch: self.normalization_epoch,
                        };
                        assert(emission.bytes() =~= tx_bytes@.take(len as int));
                        TickPlan::Offer(emission)
                    },
                    _ => TickPlan::Done(None),
                }
            },
        }
    }

    fn next_physical_byte(&self) -> (next: Option<u8>)
        requires
            self.reader.inv(),
            self@.reader.tape is Some,
        ensures
            next == if self@.reader.position < self@.reader.tape->Some_0.len() {
                Some(self@.reader.tape->Some_0[self@.reader.position as int])
            } else {
                None::<u8>
            },
    {
        match self.reader.tape() {
            Some(tape) => {
                let position = self.reader.position();
                if position < tape.len() {
                    Some(tape.byte_at(position))
                } else {
                    None
                }
            },
            None => None,
        }
    }

    /// Record what the runtime answered to the offered emission.
    ///
    /// An accepted emission is in flight until confirmed and the next byte is due one
    /// feed interval later; a refused one is kept pending and retried after 1 ms.
    pub fn finish_tick(&mut self, now: Duration, offered: ReaderEmission, answer: FeedResult) -> (delay:
        Option<Duration>)
        requires
            old(self).wf(),
            old(self)@.pending is None,
            old(self)@.in_flight is None,
            offered.wf(),
            answer matches FeedResult::Backpressured(e) ==> e.wf(),
        ensures
            final(self).wf(),
            feed_answered(old(self)@, now@, offered, answer, final(self)@, delay),
    {
        match answer {
            FeedResult::Accepted => {
                self.in_flight = Some(offered);
                self.next_due = now.saturating_add(reader_feed_interval());
                Some(reader_feed_interval())
            },
            FeedResult::Backpressured(emission) => {
                self.pending = Some(emission);
                Some(Duration::from_nanos(READER_RETRY_NANOS))
            },
        }
    }

    /// One bounded scheduling step: offer at most one emission to `transmit`.
    ///
    /// Returns the delay before the feed wants to run again, or `None` when the
    /// reader is not running, a byte is still in flight, or the reader produced
    /// nothing.
    pub fn tick<F>(&mut self, now: Duration, transmit: F) -> (delay: Option<Duration>)
        where
            F: FnOnce(ReaderEmission) -> FeedResult,
        requires
            old(self).wf(),
            forall|e: ReaderEmission| e.wf() ==> call_requires(transmit, (e,)),
            forall|e: ReaderEmission, r: FeedResult|
                call_ensures(transmit, (e,), r) ==> (r matches FeedResult::Backpressured(x) ==> x.wf()),
        ensures
            final(self).wf(),
            final(self)@.outstanding() <= 1,
            old(self)@.reader.state != ReaderState::Running ==> delay is None && final(self)@
                == old(self)@,
            old(self)@.in_flight is Some ==> delay is None && final(self)@ == old(self)@,
            old(self)@.reader.state == ReaderState::Running && old(self)@.in_flight is None
                && now@ < old(self)@.next_due ==> final(self)@ == old(self)@ && (delay matches Some(d)
                && d@ == old(self)@.next_due - now@),
            old(self)@.reader.state == ReaderState::Running && old(self)@.in_flight is None
                && now@ >= old(self)@.next_due && old(self)@.pending is Some ==> exists|
                answer: FeedResult,
            |
                #[trigger] call_ensures(transmit, (old(self)@.pending->Some_0,), answer)
                    && feed_answered(
                    FeedView { pending: None, ..old(self)@ },
                    now@,
                    old(self)@.pending->Some_0,
                    answer,
                    final(self)@,
                    delay,
                ),
            old(self)@.reader.state == ReaderState::Running && old(self)@.in_flight is None
                && now@ >= old(self)@.next_due && old(self)@.pending is None ==> {
                let (r, step) = reader_step(old(self)@.reader);
                match step {
                    ReaderStep::Byte(b) => exists|e: ReaderEmission, answer: FeedResult|
                        #[trigger] call_ensures(transmit, (e,), answer) && emission_for(
                            old(self)@,
                            r,
                            b,
                            e,
                        ) && feed_answered(
                            FeedView {
                                reader: r,
                                checkpoint: Some(old(self)@.reader.position as usize),
                                ..old(self)@
                            },
                            now@,
                            e,
                            answer,
                            final(self)@,
                            delay,
                        ),
                    _ => delay is None && final(self)@ == (FeedView { reader: r, ..old(self)@ }),
                }
            },
    {
        match self.begin_tick(now) {
            TickPlan::Done(delay) => delay,
            TickPlan::Offer(emission) => {
                proof {
                    assert(emission.wf());
                }
                let answer = transmit(emission);
                self.finish_tick(now, emission, answer)
            },
        }
    }
}

} // verus!
