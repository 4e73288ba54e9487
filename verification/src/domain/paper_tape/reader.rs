//! Deterministic paper-tape reader state machine.

use vstd::prelude::*;
use super::tape::{PaperTape, detect_trailers, lemma_run_start, run_start};

verus! {

#[derive(Clone, Copy, Debug, Eq, PartialEq, Structural)]
pub struct ReaderOptions {
    pub skip_leading_nulls: bool,
    pub set_msb: bool,
    pub auto_stop: bool,
}

impl Default for ReaderOptions {
    fn default() -> (options: Self)
        ensures
            options == (ReaderOptions { skip_leading_nulls: true, set_msb: false, auto_stop: true }),
    {
        ReaderOptions { skip_leading_nulls: true, set_msb: false, auto_stop: true }
    }
}

#[derive(Clone, Copy, Debug, Eq, PartialEq, Structural)]
pub enum ReaderState {
    Unloaded,
    Stopped,
    Running,
}

#[derive(Clone, Copy, Debug, Eq, PartialEq, Structural)]
pub enum StopCause {
    EndOfTape,
    TrailingOctal200,
    TrailingNull,
}

#[derive(Clone, Copy, Debug, Eq, PartialEq, Structural)]
pub enum ReaderStep {
    Idle,
    Byte(u8),
    Stopped(StopCause),
}

#[derive(Clone, Copy, Debug, Eq, PartialEq, Structural)]
pub enum SeekError {
    NoTape,
    Running,
    OutOfRange { requested: usize, length: usize },
}

/// Abstract reader: the loaded bytes, the read head and the switch state.
pub struct ReaderView {
    pub tape: Option<Seq<u8>>,
    pub position: nat,
    pub state: ReaderState,
    pub stop_cause: Option<StopCause>,
    pub options: ReaderOptions,
}

impl ReaderView {
    pub open spec fn wf(self) -> bool {
        &&& (self.state == ReaderState::Unloaded <==> self.tape is None)
        &&& match self.tape {
            Some(t) => self.position <= t.len(),
            None => self.position == 0,
        }
    }
}

/// Where the head stops after skipping NUL leader from `position`.
pub open spec fn skip_nulls(bytes: Seq<u8>, position: int) -> int
    decreases bytes.len() - position,
{
    if 0 <= position < bytes.len() && bytes[position] == 0 {
        skip_nulls(bytes, position + 1)
    } else {
        position
    }
}

/// Turning the reader on: NUL leader is skipped if configured and any stop cause is cleared.
pub open spec fn reader_start(r: ReaderView) -> (ReaderView, bool) {
    match r.tape {
        None => (r, false),
        Some(t) => (
            ReaderView {
                position: if r.options.skip_leading_nulls {
                    skip_nulls(t, r.position as int) as nat
                } else {
                    r.position
                },
                state: ReaderState::Running,
                stop_cause: None,
                ..r
            },
            true,
        ),
    }
}

/// One worker iteration of a reader.
///
/// With auto-stop, a trailer stops the reader only once the head is strictly past
/// the trailer's start, so the first trailer byte is still emitted.
pub open spec fn reader_step(r: ReaderView) -> (ReaderView, ReaderStep) {
    if r.state != ReaderState::Running {
        (r, ReaderStep::Idle)
    } else {
        match r.tape {
            None => (ReaderView { state: ReaderState::Unloaded, ..r }, ReaderStep::Idle),
            Some(t) => {
                let trailers = detect_trailers(t);
                let stop = |cause: StopCause|
                    (
                        ReaderView { state: ReaderState::Stopped, stop_cause: Some(cause), ..r },
                        ReaderStep::Stopped(cause),
                    );
                if r.position >= t.len() {
                    stop(StopCause::EndOfTape)
                } else if r.options.auto_stop && trailers.octal_200 is Some && r.position
                    > trailers.octal_200->Some_0 {
                    stop(StopCause::TrailingOctal200)
                } else if r.options.auto_stop && trailers.octal_200 is None && trailers.null is Some
                    && r.position > trailers.null->Some_0 {
                    stop(StopCause::TrailingNull)
                } else {
                    let byte = t[r.position as int];
                    (
                        ReaderView { position: r.position + 1, ..r },
                        ReaderStep::Byte(if r.options.set_msb { byte | 0x80 } else { byte }),
                    )
                }
            },
        }
    }
}

#[derive(Clone, Debug)]
pub struct TapeReader {
    tape: Option<PaperTape>,
    position: usize,
    state: ReaderState,
    stop_cause: Option<StopCause>,
    options: ReaderOptions,
}

impl View for TapeReader {
    type V = ReaderView;

    closed spec fn view(&self) -> ReaderView {
        ReaderView {
            tape: match self.tape {
                Some(t) => Some(t@),
                None => None,
            },
            position: self.position as nat,
            state: self.state,
            stop_cause: self.stop_cause,
            options: self.options,
        }
    }
}

impl TapeReader {
    /// The view is well formed and a loaded tape knows its own trailers.
    pub closed spec fn inv(&self) -> bool {
        &&& self@.wf()
        &&& match self.tape {
            Some(t) => t.wf(),
            None => true,
        }
    }

    /// A reader in good order has a well-formed view.
    pub proof fn lemma_inv_view(&self)
        requires
            self.inv(),
        ensures
            self@.wf(),
    {
    }

    pub fn new(options: ReaderOptions) -> (reader: Self)
        ensures
            reader.inv(),
            reader@ == (ReaderView {
                tape: None,
                position: 0,
                state: ReaderState::Unloaded,
                stop_cause: None,
                options,
            }),
    {
        TapeReader { tape: None, position: 0, state: ReaderState::Unloaded, stop_cause: None, options }
    }

    /// Loading rewinds and stops the reader; a previous stop cause is kept until it is turned on.
    pub fn load(&mut self, tape: PaperTape)
        requires
            tape.wf(),
        ensures
            final(self).inv(),
            final(self)@ == (ReaderView {
                tape: Some(tape@),
                position: 0,
                state: ReaderState::Stopped,
                ..old(self)@
            }),
    {
        self.tape = Some(tape);
        self.position = 0;
        self.state = ReaderState::Stopped;
    }

    pub fn unload(&mut self) -> (tape: Option<PaperTape>)
        ensures
            final(self).inv(),
            final(self)@ == (ReaderView {
                tape: None,
                position: 0,
                state: ReaderState::Unloaded,
                ..old(self)@
            }),
            match tape {
                Some(t) => old(self)@.tape == Some(t@),
                None => old(self)@.tape is None,
            },
    {
        self.position = 0;
        self.state = ReaderState::Unloaded;
        self.tape.take()
    }

    pub fn state(&self) -> (state: ReaderState)
        ensures
            state == self@.state,
    {
        self.state
    }

    pub fn position(&self) -> (position: usize)
        ensures
            position == self@.position,
    {
        self.position
    }

    pub fn stop_cause(&self) -> (cause: Option<StopCause>)
        ensures
            cause == self@.stop_cause,
    {
        self.stop_cause
    }

    pub fn tape(&self) -> (tape: Option<&PaperTape>)
        ensures
            match tape {
                Some(t) => self@.tape == Some(t@),
                None => self@.tape is None,
            },
    {
        self.tape.as_ref()
    }

    pub fn set_auto_stop(&mut self, enabled: bool)
        requires
            old(self).inv(),
        ensures
            final(self).inv(),
            final(self)@ == (ReaderView {
                options: ReaderOptions { auto_stop: enabled, ..old(self)@.options },
                ..old(self)@
            }),
    {
        self.options.auto_stop = enabled;
    }

    pub fn set_skip_leading_nulls(&mut self, enabled: bool)
        requires
            old(self).inv(),
        ensures
            final(self).inv(),
            final(self)@ == (ReaderView {
                options: ReaderOptions { skip_leading_nulls: enabled, ..old(self)@.options },
                ..old(self)@
            }),
    {
        self.options.skip_leading_nulls = enabled;
    }

    pub fn set_msb(&mut self, enabled: bool)
        requires
            old(self).inv(),
        ensures
            final(self).inv(),
            final(self)@ == (ReaderView {
                options: ReaderOptions { set_msb: enabled, ..old(self)@.options },
                ..old(self)@
            }),
    {
        self.options.set_msb = enabled;
    }

    pub fn start(&mut self) -> (started: bool)
        requires
            old(self).inv(),
        ensures
            final(self).inv(),
            (final(self)@, started) == reader_start(old(self)@),
    {
        let len = match &self.tape {
            None => {
                return false;
            },
            Some(tape) => tape.len(),
        };
        if self.options.skip_leading_nulls {
            while self.position < len && self.tape_byte(self.position) == 0
                invariant
                    self.inv(),
                    self.tape is Some,
                    len == self@.tape->Some_0.len(),
                    old(self)@.position <= self.position <= len,
                    self@ == (ReaderView { position: self.position as nat, ..old(self)@ }),
                    skip_nulls(self@.tape->Some_0, self.position as int) == skip_nulls(
                        self@.tape->Some_0,
                        old(self)@.position as int,
                    ),
                decreases len - self.position,
            {
                self.position += 1;
            }
        }
        self.state = ReaderState::Running;
        self.stop_cause = None;
        true
    }

    fn tape_byte(&self, index: usize) -> (b: u8)
        requires
            self@.tape is Some,
            index < self@.tape->Some_0.len(),
        ensures
            b == self@.tape->Some_0[index as int],
    {
        match &self.tape {
            Some(t) => t.byte_at(index),
            None => 0,
        }
    }

    pub fn stop(&mut self)
        requires
            old(self).inv(),
        ensures
            final(self).inv(),
            final(self)@ == if old(self)@.tape is Some {
                ReaderView { state: ReaderState::Stopped, ..old(self)@ }
            } else {
                old(self)@
            },
    {
        if self.tape.is_some() {
            self.state = ReaderState::Stopped;
        }
    }

    /// Rewind a loaded, stopped reader that is not already at the start.
    pub fn rewind(&mut self) -> (rewound: bool)
        requires
            old(self).inv(),
        ensures
            final(self).inv(),
            rewound == (old(self)@.tape is Some && old(self)@.state != ReaderState::Running
                && old(self)@.position > 0),
            final(self)@ == if rewound {
                ReaderView { position: 0, ..old(self)@ }
            } else {
                old(self)@
            },
    {
        let running = match self.state {
            ReaderState::Running => true,
            _ => false,
        };
        if self.tape.is_some() && !running && self.position > 0 {
            self.position = 0;
            true
        } else {
            false
        }
    }

    /// Move the head of a loaded, stopped reader; the end of the tape is a valid position.
    pub fn seek(&mut self, position: usize) -> (result: Result<(), SeekError>)
        requires
            old(self).inv(),
        ensures
            final(self).inv(),
            match old(self)@.tape {
                None => result == Err::<(), SeekError>(SeekError::NoTape) && final(self)@ == old(self)@,
                Some(t) => if old(self)@.state == ReaderState::Running {
                    result == Err::<(), SeekError>(SeekError::Running) && final(self)@ == old(self)@
                } else if position > t.len() {
                    result == Err::<(), SeekError>(
                        SeekError::OutOfRange { requested: position, length: t.len() as usize },
                    ) && final(self)@ == old(self)@
                } else {
                    result == Ok::<(), SeekError>(()) && final(self)@ == (ReaderView {
                        position: position as nat,
                        stop_cause: None,
                        ..old(self)@
                    })
                },
            },
    {
        let len = match &self.tape {
            None => {
                return Err(SeekError::NoTape);
            },
            Some(t) => t.len(),
        };
        match self.state {
            ReaderState::Running => {
                return Err(SeekError::Running);
            },
            _ => {},
        }
        if position > len {
            return Err(SeekError::OutOfRange { requested: position, length: len });
        }
        self.position = position;
        self.stop_cause = None;
        Ok(())
    }

    /// Put the head back where it was, if that still lies on the loaded tape.
    pub fn restore_position(&mut self, position: usize)
        requires
            old(self).inv(),
        ensures
            final(self).inv(),
            final(self)@ == match old(self)@.tape {
                Some(t) => if position <= t.len() {
                    ReaderView { position: position as nat, stop_cause: None, ..old(self)@ }
                } else {
                    old(self)@
                },
                None => old(self)@,
            },
    {
        let fits = match &self.tape {
            Some(t) => position <= t.len(),
            None => false,
        };
        if fits {
            self.position = position;
            self.stop_cause = None;
        }
    }

    /// Advance the reader by one worker iteration without sleeping or I/O.
    pub fn step(&mut self) -> (step: ReaderStep)
        requires
            old(self).inv(),
        ensures
            final(self).inv(),
            (final(self)@, step) == reader_step(old(self)@),
    {
        match self.state {
            ReaderState::Running => {},
            _ => {
                return ReaderStep::Idle;
            },
        }
        let (len, trailers) = match &self.tape {
            None => {
                self.state = ReaderState::Unloaded;
                return ReaderStep::Idle;
            },
            Some(tape) => (tape.len(), tape.trailers()),
        };
        if self.position >= len {
            return self.stop_for(StopCause::EndOfTape);
        }
        if self.options.auto_stop {
            match trailers.octal_200 {
                Some(start) => {
                    if self.position > start {
                        return self.stop_for(StopCause::TrailingOctal200);
                    }
                },
                None => match trailers.null {
                    Some(start) => {
                        if self.position > start {
                            return self.stop_for(StopCause::TrailingNull);
                        }
                    },
                    None => {},
                },
            }
        }
        let mut byte = self.tape_byte(self.position);
        if self.options.set_msb {
            byte = byte | 0x80;
        }
        self.position += 1;
        ReaderStep::Byte(byte)
    }

    fn stop_for(&mut self, cause: StopCause) -> (step: ReaderStep)
        requires
            old(self).inv(),
            old(self)@.tape is Some,
        ensures
            final(self).inv(),
            final(self)@ == (ReaderView {
                state: ReaderState::Stopped,
                stop_cause: Some(cause),
                ..old(self)@
            }),
            step == ReaderStep::Stopped(cause),
    {
        self.state = ReaderState::Stopped;
        self.stop_cause = Some(cause);
        ReaderStep::Stopped(cause)
    }
}

/// What `k` steps of a reader emit, and the reader after them.
pub open spec fn read_steps(r: ReaderView, k: nat) -> (ReaderView, Seq<u8>)
    decreases k,
{
    if k == 0 {
        (r, Seq::empty())
    } else {
        let (before, emitted) = read_steps(r, (k - 1) as nat);
        let (after, step) = reader_step(before);
        (
            after,
            match step {
                ReaderStep::Byte(b) => emitted.push(b),
                _ => emitted,
            },
        )
    }
}

/// A byte as the reader emits it: with the high bit set when Set MSB is on.
pub open spec fn emitted_byte(byte: u8, set_msb: bool) -> u8 {
    if set_msb {
        byte | 0x80
    } else {
        byte
    }
}

/// Whether a running reader at `position` reads a byte rather than stopping.
pub open spec fn reads_at(r: ReaderView, position: int) -> bool {
    let t = r.tape->Some_0;
    let trailers = detect_trailers(t);
    &&& position < t.len()
    &&& !(r.options.auto_stop && trailers.octal_200 is Some && position
        > trailers.octal_200->Some_0)
    &&& !(r.options.auto_stop && trailers.octal_200 is None && trailers.null is Some && position
        > trailers.null->Some_0)
}

proof fn lemma_read_steps_prefix(r: ReaderView, k: nat)
    requires
        r.wf(),
        r.state == ReaderState::Running,
        r.tape is Some,
        forall|q: int| r.position <= q < r.position + k ==> reads_at(r, q),
    ensures
        read_steps(r, k) == (
            ReaderView { position: r.position + k, ..r },
            r.tape->Some_0.subrange(r.position as int, (r.position + k) as int).map_values(
                |b: u8| emitted_byte(b, r.options.set_msb),
            ),
        ),
    decreases k,
{
    let t = r.tape->Some_0;
    if k > 0 {
        lemma_read_steps_prefix(r, (k - 1) as nat);
        assert(reads_at(r, r.position + k - 1));
        let read = t.subrange(r.position as int, (r.position + k) as int).map_values(
            |b: u8| emitted_byte(b, r.options.set_msb),
        );
        let earlier = t.subrange(r.position as int, r.position + k - 1).map_values(
            |b: u8| emitted_byte(b, r.options.set_msb),
        );
        assert(read =~= earlier.push(emitted_byte(t[r.position + k - 1], r.options.set_msb)));
    }
}

/// Where auto-stop ends a tape: the start of its octal-200 trailer, else of its
/// NUL trailer, with the cause it reports.
pub open spec fn auto_stop_point(t: Seq<u8>) -> Option<(int, StopCause)> {
    let trailers = detect_trailers(t);
    match trailers.octal_200 {
        Some(s) => Some((s as int, StopCause::TrailingOctal200)),
        None => match trailers.null {
            Some(s) => Some((s as int, StopCause::TrailingNull)),
            None => None,
        },
    }
}

/// With auto-stop, a running reader before the trailer reads up to and including
/// the trailer's first byte and then stops, so no further trailer byte is fed in.
pub proof fn lemma_auto_stop_reads_through_first_trailer_byte(r: ReaderView)
    requires
        r.wf(),
        r.state == ReaderState::Running,
        r.tape is Some,
        r.options.auto_stop,
        auto_stop_point(r.tape->Some_0) matches Some((s, _)) && r.position <= s,
    ensures
        ({
            let t = r.tape->Some_0;
            let (s, cause) = auto_stop_point(t)->Some_0;
            let (end, read) = read_steps(r, (s + 1 - r.position) as nat);
            &&& s < t.len()
            &&& read == t.subrange(r.position as int, s + 1).map_values(
                |b: u8| emitted_byte(b, r.options.set_msb),
            )
            &&& end == (ReaderView { position: (s + 1) as nat, ..r })
            &&& reader_step(end).1 == ReaderStep::Stopped(
                if s + 1 == t.len() {
                    StopCause::EndOfTape
                } else {
                    cause
                },
            )
        }),
{
    let t = r.tape->Some_0;
    let before_nulls = run_start(t, t.len() as int, 0);
    lemma_run_start(t, t.len() as int, 0);
    lemma_run_start(t, before_nulls, 0x80);
    let (s, cause) = auto_stop_point(t)->Some_0;
    lemma_read_steps_prefix(r, (s + 1 - r.position) as nat);
}

/// Without auto-stop, a running reader reads the rest of its tape byte by byte, in
/// order (with the high bit set when Set MSB is on), and then stops at the end.
pub proof fn lemma_reader_reads_rest_of_tape(r: ReaderView)
    requires
        r.wf(),
        r.state == ReaderState::Running,
        r.tape is Some,
        !r.options.auto_stop,
    ensures
        ({
            let t = r.tape->Some_0;
            let (end, read) = read_steps(r, (t.len() - r.position) as nat);
            &&& read == t.subrange(r.position as int, t.len() as int).map_values(
                |b: u8| emitted_byte(b, r.options.set_msb),
            )
            &&& end == (ReaderView { position: t.len(), ..r })
            &&& reader_step(end) == (
                ReaderView {
                    state: ReaderState::Stopped,
                    stop_cause: Some(StopCause::EndOfTape),
                    ..end
                },
                ReaderStep::Stopped(StopCause::EndOfTape),
            )
        }),
{
    let t = r.tape->Some_0;
    lemma_read_steps_prefix(r, (t.len() - r.position) as nat);
}

} // verus!
