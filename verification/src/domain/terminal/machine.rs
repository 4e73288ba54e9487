//! The terminal printer: cursor, line advance, scrollback and character events.

use vstd::prelude::*;
use std::collections::VecDeque;
use super::escape::{EscapeFilter, EscapeState, escape_run, lemma_escape_run_concat};
use super::history::{LineHistory, HistoryView, blank_line, history_add_char, history_add_line, history_reset};
use super::parity::mask_parity_bit;

verus! {

#[derive(Clone, Copy, Debug, Eq, PartialEq, Structural)]
pub struct TerminalOptions {
    pub columns: usize,
    pub rows: usize,
    pub scrollback: usize,
    pub autowrap: bool,
}

impl Default for TerminalOptions {
    fn default() -> (options: Self)
        ensures
            options == (TerminalOptions { columns: 72, rows: 24, scrollback: 200, autowrap: false }),
    {
        TerminalOptions { columns: 72, rows: 24, scrollback: 200, autowrap: false }
    }
}

#[derive(Clone, Copy, Debug, Eq, PartialEq, Structural)]
pub enum TerminalError {
    ZeroColumns,
    HistoryCapacityOverflow,
    LogicalLineOverflow,
}

impl TerminalError {
    /// Human-readable description.
    pub fn message(&self) -> (text: &'static str)
        ensures
            text == (match *self {
                TerminalError::ZeroColumns => "terminal must have at least one column",
                TerminalError::HistoryCapacityOverflow => "terminal history capacity overflow",
                TerminalError::LogicalLineOverflow => "terminal logical line number overflow",
            }),
    {
        match self {
            TerminalError::ZeroColumns => "terminal must have at least one column",
            TerminalError::HistoryCapacityOverflow => "terminal history capacity overflow",
            TerminalError::LogicalLineOverflow => "terminal logical line number overflow",
        }
    }
}

/// A character handled by the printer, with the carriage column after it.
#[derive(Clone, Copy, Debug, Eq, PartialEq, Structural)]
pub struct CharacterEvent {
    pub character: char,
    pub column: usize,
}

/// Effects produced while receiving a backend chunk.
#[derive(Clone, Debug, Eq, PartialEq)]
pub struct ReceiveEffects {
    /// Original eight-bit bytes, before parity masking and escape filtering.
    pub forwarded_bytes: Vec<u8>,
}

/// The printable seven-bit ASCII characters: space through tilde.
pub open spec fn legacy_printable(byte: u8) -> bool {
    0x20 <= byte <= 0x7e
}

pub fn is_legacy_printable_ascii(byte: u8) -> (printable: bool)
    ensures
        printable == legacy_printable(byte),
{
    byte >= 0x20 && byte <= 0x7e
}

/// Abstract terminal state.
pub struct TerminalView {
    pub width: usize,
    pub height: usize,
    pub autowrap: bool,
    pub column: usize,
    pub line_number: u64,
    pub history: HistoryView,
    pub escape: EscapeState,
    pub events: Seq<CharacterEvent>,
    pub printing: bool,
}

impl TerminalView {
    pub open spec fn wf(self) -> bool {
        &&& self.width >= 1
        &&& self.column < self.width
        &&& self.history.wf()
        &&& self.history.width == self.width
        &&& self.history.capacity >= 1
    }
}

/// The column of the next tab stop (multiple of eight), as the saturating machine computes it.
pub open spec fn tab_stop(column: usize) -> usize {
    if column + 8 > usize::MAX {
        (usize::MAX - usize::MAX % 8) as usize
    } else {
        ((column + 8) - (column + 8) % 8) as usize
    }
}

/// Start a new logical line.
pub open spec fn advance_line(t: TerminalView) -> Result<TerminalView, TerminalError> {
    if t.line_number == u64::MAX {
        Err(TerminalError::LogicalLineOverflow)
    } else {
        let n = (t.line_number + 1) as u64;
        Ok(TerminalView { line_number: n, history: history_add_line(t.history, n), ..t })
    }
}

/// The cursor/paper effect of one byte, before wrapping and clamping.
pub open spec fn print_byte(t: TerminalView, byte: u8) -> Result<TerminalView, TerminalError> {
    if byte == 0x0d {
        Ok(TerminalView { column: 0, ..t })
    } else if byte == 0x0a || byte == 0x0b {
        advance_line(t)
    } else if byte == 0x08 || byte == 0x0c {
        Ok(TerminalView { column: if t.column == 0 { 0 } else { (t.column - 1) as usize }, ..t })
    } else if byte == 0x09 {
        Ok(TerminalView { column: tab_stop(t.column), ..t })
    } else if legacy_printable(byte) {
        Ok(
            TerminalView {
                history: history_add_char(t.history, t.column as int, byte as char),
                column: if t.column == usize::MAX { usize::MAX } else { (t.column + 1) as usize },
                ..t
            },
        )
    } else {
        Ok(t)
    }
}

/// Autowrap, clamp the carriage to the last column and record the character event.
pub open spec fn finish_byte(t: TerminalView, byte: u8) -> Result<TerminalView, TerminalError> {
    let wrapped = if t.autowrap && t.column >= t.width {
        advance_line(TerminalView { column: (t.column - t.width) as usize, ..t })
    } else {
        Ok(t)
    };
    match wrapped {
        Err(e) => Err(e),
        Ok(w) => {
            let column = if w.column < w.width - 1 { w.column } else { (w.width - 1) as usize };
            Ok(
                TerminalView {
                    column,
                    events: w.events.push(CharacterEvent { character: byte as char, column }),
                    ..w
                },
            )
        },
    }
}

/// One filtered byte through the printer.
pub open spec fn process_byte(t: TerminalView, byte: u8) -> Result<TerminalView, TerminalError> {
    match print_byte(t, byte) {
        Err(e) => Err(e),
        Ok(p) => finish_byte(p, byte),
    }
}

/// A sequence of filtered bytes through the printer, stopping at the first error.
pub open spec fn process_bytes(t: TerminalView, bytes: Seq<u8>) -> Result<
    TerminalView,
    TerminalError,
>
    decreases bytes.len(),
{
    if bytes.len() == 0 {
        Ok(t)
    } else {
        match process_bytes(t, bytes.drop_last()) {
            Err(e) => Err(e),
            Ok(mid) => process_byte(mid, bytes.last()),
        }
    }
}

/// The whole receive path: mask parity, filter escapes, then print if the printer is on.
pub open spec fn receive(t: TerminalView, data: Seq<u8>) -> Result<TerminalView, TerminalError> {
    let (escape, filtered) = escape_run(t.escape, data.map_values(|b: u8| b & 0x7f));
    let filtered_state = TerminalView { escape, ..t };
    if t.printing {
        process_bytes(filtered_state, filtered)
    } else {
        Ok(filtered_state)
    }
}

/// Printing fails only when the logical line counter overflows.
proof fn lemma_process_bytes_failure(t: TerminalView, bytes: Seq<u8>)
    ensures
        process_bytes(t, bytes) matches Err(e) ==> e == TerminalError::LogicalLineOverflow,
    decreases bytes.len(),
{
    if bytes.len() > 0 {
        lemma_process_bytes_failure(t, bytes.drop_last());
    }
}

/// Receiving fails only on a logical line overflow of a printing terminal; a terminal
/// whose printer is off takes any input and its printer stays off.
pub proof fn lemma_receive_failure(t: TerminalView, data: Seq<u8>)
    ensures
        receive(t, data) matches Err(e) ==> e == TerminalError::LogicalLineOverflow && t.printing,
        !t.printing ==> (receive(t, data) matches Ok(u) && !u.printing),
{
    let (escape, filtered) = escape_run(t.escape, data.map_values(|b: u8| b & 0x7f));
    lemma_process_bytes_failure(TerminalView { escape, ..t }, filtered);
}

/// What a byte that fails to print leaves behind: nothing for a line feed, and for a
/// character that would wrap, the character printed and the carriage wrapped back.
pub open spec fn failed_byte_state(t: TerminalView, byte: u8) -> TerminalView {
    match print_byte(t, byte) {
        Err(_) => t,
        Ok(p) => TerminalView { column: (p.column - p.width) as usize, ..p },
    }
}

/// After a refused chunk: the bytes before the failing one are printed, and the
/// failing one left what it leaves.
pub open spec fn receive_failure_state(t: TerminalView, data: Seq<u8>, after: TerminalView) -> bool {
    let (escape, filtered) = escape_run(t.escape, data.map_values(|b: u8| b & 0x7f));
    let start = TerminalView { escape, ..t };
    exists|k: int|
        0 <= k < filtered.len() && (#[trigger] process_bytes(start, filtered.take(k)) matches Ok(p)
            && process_byte(p, filtered[k]) is Err && after == failed_byte_state(p, filtered[k]))
}

/// One 7-bit byte other than ESC, sent to a printing terminal outside any escape
/// sequence, is printed exactly as that byte.
proof fn lemma_receive_one_byte(t: TerminalView, b: u8)
    requires
        t.escape == EscapeState::Ground,
        t.printing,
        b < 0x80,
        b != 0x1b,
    ensures
        receive(t, seq![b]) == process_byte(t, b),
{
    let masked = seq![b].map_values(|x: u8| x & 0x7f);
    assert(b & 0x7f == b) by (bit_vector)
        requires
            b < 0x80,
    ;
    assert(masked =~= seq![b]);
    assert(seq![b].drop_last() =~= Seq::<u8>::empty());
    assert(escape_run(EscapeState::Ground, seq![b]) == (EscapeState::Ground, seq![b])) by {
        reveal_with_fuel(escape_run, 2);
        assert(Seq::<u8>::empty().push(b) =~= seq![b]);
    }
    assert(process_bytes(t, seq![b]) == process_byte(t, b)) by {
        reveal_with_fuel(process_bytes, 2);
    }
    assert(TerminalView { escape: EscapeState::Ground, ..t } == t);
}

/// Carriage handling of a printing terminal, for one byte outside any escape sequence:
/// TAB moves strictly right to the next multiple of eight (wrapping or clamping only
/// at the end of the line), CR returns to column 0, LF and VT start a new line in the
/// same column, BS and FF step one column left (not past 0), and a printable
/// character moves one column right. Only a new line moves the line counter.
pub proof fn lemma_carriage_moves(t: TerminalView, b: u8)
    requires
        t.wf(),
        t.escape == EscapeState::Ground,
        t.printing,
        b < 0x80,
        b != 0x1b,
        t.column + 8 <= usize::MAX,
    ensures
        b == 0x09 && t.column + 8 - t.column % 8 < t.width ==> (receive(t, seq![b]) matches Ok(u)
            && u.column == t.column + 8 - t.column % 8 && u.column > t.column && u.line_number
            == t.line_number),
        b == 0x09 && !t.autowrap && t.column + 8 - t.column % 8 >= t.width ==> (receive(
            t,
            seq![b],
        ) matches Ok(u) && u.column == t.width - 1 && u.line_number == t.line_number),
        b == 0x0d ==> (receive(t, seq![b]) matches Ok(u) && u.column == 0 && u.line_number
            == t.line_number),
        (b == 0x0a || b == 0x0b) && t.line_number < u64::MAX ==> (receive(t, seq![b]) matches Ok(u)
            && u.column == t.column && u.line_number == t.line_number + 1),
        (b == 0x0a || b == 0x0b) && t.line_number == u64::MAX ==> receive(t, seq![b]) == Err::<
            TerminalView,
            TerminalError,
        >(TerminalError::LogicalLineOverflow),
        b == 0x08 || b == 0x0c ==> (receive(t, seq![b]) matches Ok(u) && u.column == (if t.column
            == 0 {
            0
        } else {
            t.column - 1
        }) && u.line_number == t.line_number),
        0x20 <= b <= 0x7e && t.column + 1 < t.width ==> (receive(t, seq![b]) matches Ok(u)
            && u.column == t.column + 1 && u.line_number == t.line_number),
{
    lemma_receive_one_byte(t, b);
    assert((t.column + 8) % 8 == t.column % 8);
}

/// Once a prefix of the input fails, the whole input fails with the same error.
proof fn lemma_process_bytes_error_prefix(t: TerminalView, bytes: Seq<u8>, k: int, e: TerminalError)
    requires
        0 <= k <= bytes.len(),
        process_bytes(t, bytes.take(k)) == Err::<TerminalView, TerminalError>(e),
    ensures
        process_bytes(t, bytes) == Err::<TerminalView, TerminalError>(e),
    decreases bytes.len(),
{
    if k == bytes.len() {
        assert(bytes.take(k) =~= bytes);
    } else {
        assert(bytes.drop_last().take(k) =~= bytes.take(k));
        lemma_process_bytes_error_prefix(t, bytes.drop_last(), k, e);
    }
}

/// The printer neither reads nor changes the escape state or the printer switch.
proof fn lemma_process_byte_frame(t: TerminalView, x: EscapeState, byte: u8)
    ensures
        match process_byte(t, byte) {
            Ok(r) => r.escape == t.escape && r.printing == t.printing && process_byte(
                TerminalView { escape: x, ..t },
                byte,
            ) == Ok::<TerminalView, TerminalError>(TerminalView { escape: x, ..r }),
            Err(e) => process_byte(TerminalView { escape: x, ..t }, byte) == Err::<
                TerminalView,
                TerminalError,
            >(e),
        },
{
    let tx = TerminalView { escape: x, ..t };
    match print_byte(t, byte) {
        Ok(p) => {
            assert(print_byte(tx, byte) == Ok::<TerminalView, TerminalError>(
                TerminalView { escape: x, ..p },
            ));
        },
        Err(e) => {},
    }
}

proof fn lemma_process_bytes_frame(t: TerminalView, x: EscapeState, bytes: Seq<u8>)
    ensures
        match process_bytes(t, bytes) {
            Ok(r) => r.escape == t.escape && r.printing == t.printing && process_bytes(
                TerminalView { escape: x, ..t },
                bytes,
            ) == Ok::<TerminalView, TerminalError>(TerminalView { escape: x, ..r }),
            Err(e) => process_bytes(TerminalView { escape: x, ..t }, bytes) == Err::<
                TerminalView,
                TerminalError,
            >(e),
        },
    decreases bytes.len(),
{
    if bytes.len() > 0 {
        lemma_process_bytes_frame(t, x, bytes.drop_last());
        match process_bytes(t, bytes.drop_last()) {
            Ok(mid) => {
                lemma_process_byte_frame(mid, x, bytes.last());
            },
            Err(_) => {},
        }
    }
}

/// Filtered bytes printed in two runs leave the paper as one run would.
proof fn lemma_process_bytes_concat(t: TerminalView, a: Seq<u8>, b: Seq<u8>)
    ensures
        process_bytes(t, a + b) == match process_bytes(t, a) {
            Err(e) => Err::<TerminalView, TerminalError>(e),
            Ok(m) => process_bytes(m, b),
        },
    decreases b.len(),
{
    if b.len() == 0 {
        assert(a + b =~= a);
    } else {
        lemma_process_bytes_concat(t, a, b.drop_last());
        assert((a + b).drop_last() =~= a + b.drop_last());
        assert((a + b).last() == b.last());
    }
}

/// However the host's bytes are split into chunks, the terminal ends where
/// receiving them at once would leave it: receiving `a` and then `b` is receiving
/// `a + b`, and an error in `a` is the error of the whole.
pub proof fn lemma_receive_in_chunks(t: TerminalView, a: Seq<u8>, b: Seq<u8>)
    ensures
        receive(t, a + b) == match receive(t, a) {
            Err(e) => Err::<TerminalView, TerminalError>(e),
            Ok(m) => receive(m, b),
        },
{
    let ma = a.map_values(|v: u8| v & 0x7f);
    let mb = b.map_values(|v: u8| v & 0x7f);
    assert((a + b).map_values(|v: u8| v & 0x7f) =~= ma + mb);
    lemma_escape_run_concat(t.escape, ma, mb);
    let (e1, f1) = escape_run(t.escape, ma);
    let (e2, f2) = escape_run(e1, mb);
    let first = TerminalView { escape: e1, ..t };
    let both = TerminalView { escape: e2, ..t };
    if t.printing {
        lemma_process_bytes_concat(both, f1, f2);
        lemma_process_bytes_frame(first, e2, f1);
        assert(both == TerminalView { escape: e2, ..first });
    }
}

#[derive(Debug)]
pub struct Terminal {
    width: usize,
    height: usize,
    autowrap: bool,
    current_column: usize,
    current_line_number: u64,
    line_history: LineHistory,
    escape_filter: EscapeFilter,
    character_events: VecDeque<CharacterEvent>,
    printing_enabled: bool,
}

impl View for Terminal {
    type V = TerminalView;

    closed spec fn view(&self) -> TerminalView {
        TerminalView {
            width: self.width,
            height: self.height,
            autowrap: self.autowrap,
            column: self.current_column,
            line_number: self.current_line_number,
            history: self.line_history@,
            escape: self.escape_filter@,
            events: self.character_events@,
            printing: self.printing_enabled,
        }
    }
}

proof fn lemma_tab_stop(column: usize)
    ensures
        ((if column + 8 > usize::MAX { usize::MAX } else { (column + 8) as usize }) & !7usize)
            == tab_stop(column),
{
    let s: usize = if column + 8 > usize::MAX { usize::MAX } else { (column + 8) as usize };
    assert(s & !7usize == s - s % 8) by (bit_vector);
}

impl Terminal {
    pub fn new(options: TerminalOptions) -> (result: Result<Self, TerminalError>)
        ensures
            match result {
                Ok(t) => {
                    &&& options.columns != 0
                    &&& options.rows + options.scrollback <= usize::MAX
                    &&& options.rows + options.scrollback != 0
                    &&& t@.wf()
                    &&& t@.width == options.columns
                    &&& t@.height == options.rows
                    &&& t@.autowrap == options.autowrap
                    &&& t@.column == 0
                    &&& t@.line_number == 0
                    &&& t@.history.capacity == options.rows + options.scrollback
                    &&& t@.history.lines == seq![blank_line(options.columns as nat, 0)]
                    &&& t@.escape == EscapeState::Ground
                    &&& t@.events == Seq::<CharacterEvent>::empty()
                    &&& t@.printing
                },
                Err(e) => e == if options.columns == 0 {
                    TerminalError::ZeroColumns
                } else {
                    TerminalError::HistoryCapacityOverflow
                },
            },
            result is Err <==> (options.columns == 0 || options.rows + options.scrollback
                > usize::MAX || options.rows + options.scrollback == 0),
    {
        if options.columns == 0 {
            return Err(TerminalError::ZeroColumns);
        }
        let history_capacity = match options.rows.checked_add(options.scrollback) {
            Some(c) => c,
            None => return Err(TerminalError::HistoryCapacityOverflow),
        };
        if history_capacity == 0 {
            return Err(TerminalError::HistoryCapacityOverflow);
        }
        Ok(
            Terminal {
                width: options.columns,
                height: options.rows,
                autowrap: options.autowrap,
                current_column: 0,
                current_line_number: 0,
                line_history: LineHistory::new(history_capacity, options.columns, 0),
                escape_filter: EscapeFilter::new(),
                character_events: VecDeque::new(),
                printing_enabled: true,
            },
        )
    }

    pub fn width(&self) -> (w: usize)
        ensures
            w == self@.width,
    {
        self.width
    }

    pub fn height(&self) -> (h: usize)
        ensures
            h == self@.height,
    {
        self.height
    }

    pub fn line_history(&self) -> (h: &LineHistory)
        ensures
            h@ == self@.history,
    {
        &self.line_history
    }

    pub fn cursor_position(&self) -> (p: (usize, u64))
        ensures
            p == (self@.column, self@.line_number),
    {
        (self.current_column, self.current_line_number)
    }

    pub fn printing_enabled(&self) -> (on: bool)
        ensures
            on == self@.printing,
    {
        self.printing_enabled
    }

    pub fn enable_printing(&mut self)
        ensures
            final(self)@ == (TerminalView { printing: true, ..old(self)@ }),
    {
        self.printing_enabled = true;
    }

    pub fn disable_printing(&mut self)
        ensures
            final(self)@ == (TerminalView { printing: false, ..old(self)@ }),
    {
        self.printing_enabled = false;
    }

    /// Clear only the retained paper: the cursor returns home and one blank line remains.
    ///
    /// No bytes are emitted and printer enablement, escape parsing and queued
    /// character events are untouched.
    pub fn clear_paper(&mut self)
        requires
            old(self)@.wf(),
        ensures
            final(self)@ == (TerminalView {
                column: 0,
                line_number: 0,
                history: history_reset(old(self)@.history, 0),
                ..old(self)@
            }),
            final(self)@.wf(),
    {
        self.current_column = 0;
        self.current_line_number = 0;
        self.line_history.clear(0);
    }

    pub fn character_event_count(&self) -> (n: usize)
        ensures
            n == self@.events.len(),
    {
        self.character_events.len()
    }

    pub fn pop_character_event(&mut self) -> (event: Option<CharacterEvent>)
        ensures
            match event {
                Some(e) => old(self)@.events.len() > 0 && e == old(self)@.events[0]
                    && final(self)@ == (TerminalView { events: old(self)@.events.drop_first(), ..old(self)@ }),
                None => old(self)@.events.len() == 0 && final(self)@ == old(self)@,
            },
    {
        let e = self.character_events.pop_front();
        proof {
            if e is Some {
                assert(self@.events =~= old(self)@.events.drop_first());
            }
        }
        e
    }

    /// Process bytes received from a backend.
    ///
    /// The returned bytes remain unmasked and unfiltered so an outer
    /// application can forward exactly what arrived (to the punch, for example).
    pub fn receive_data(&mut self, data: &[u8]) -> (result: Result<ReceiveEffects, TerminalError>)
        requires
            old(self)@.wf(),
        ensures
            result is Ok ==> final(self)@.wf(),
            match result {
                Ok(effects) => effects.forwarded_bytes@ == data@ && receive(old(self)@, data@) == Ok::<
                    TerminalView,
                    TerminalError,
                >(final(self)@),
                Err(e) => receive(old(self)@, data@) == Err::<TerminalView, TerminalError>(e)
                    && receive_failure_state(old(self)@, data@, final(self)@),
            },
    {
        let forwarded = crate::util::copy_bytes(data);
        let masked = mask_parity_bit(data);
        let filtered = self.escape_filter.feed(&masked);
        let ghost start = TerminalView { escape: self@.escape, ..old(self)@ };
        if self.printing_enabled {
            let mut i: usize = 0;
            while i < filtered.len()
                invariant
                    self@.wf(),
                    i <= filtered@.len(),
                    self.printing_enabled == old(self)@.printing,
                    old(self)@.printing,
                    (self@.escape, filtered@) == escape_run(old(self)@.escape, masked@),
                    masked@ == data@.map_values(|b: u8| b & 0x7f),
                    start == (TerminalView { escape: start.escape, ..old(self)@ }),
                    (start.escape, filtered@) == escape_run(old(self)@.escape, masked@),
                    process_bytes(start, filtered@.take(i as int)) == Ok::<
                        TerminalView,
                        TerminalError,
                    >(self@),
                decreases filtered@.len() - i,
            {
                let byte = filtered[i];
                proof {
                    assert(filtered@.take(i + 1).drop_last() =~= filtered@.take(i as int));
                    assert(filtered@.take(i + 1).last() == byte);
                }
                let ghost pre = self@;
                match self.process_byte(byte) {
                    Ok(()) => {},
                    Err(e) => {
                        proof {
                            assert(process_bytes(start, filtered@.take(i + 1)) == process_byte(pre, byte));
                            lemma_process_bytes_error_prefix(
                                start,
                                filtered@,
                                i + 1,
                                e,
                            );
                            assert(filtered@.take(filtered@.len() as int) =~= filtered@);
                            assert(old(self)@.printing);
                            assert(start.escape == escape_run(old(self)@.escape, data@.map_values(|b: u8| b & 0x7f)).0);
                            assert(filtered@ == escape_run(old(self)@.escape, data@.map_values(|b: u8| b & 0x7f)).1);
                            assert(receive(old(self)@, data@) == process_bytes(start, filtered@));
                            assert(filtered@[i as int] == byte);
                            assert(process_bytes(start, filtered@.take(i as int)) == Ok::<
                                TerminalView,
                                TerminalError,
                            >(pre));
                            assert(receive_failure_state(old(self)@, data@, self@));
                        }
                        return Err(e);
                    },
                }
                i += 1;
            }
            assert(filtered@.take(filtered@.len() as int) =~= filtered@);
        }
        Ok(ReceiveEffects { forwarded_bytes: forwarded })
    }

    fn advance_line(&mut self) -> (result: Result<(), TerminalError>)
        requires
            old(self)@.history.wf(),
        ensures
            match result {
                Ok(()) => advance_line(old(self)@) == Ok::<TerminalView, TerminalError>(final(self)@),
                Err(e) => advance_line(old(self)@) == Err::<TerminalView, TerminalError>(e)
                    && final(self)@ == old(self)@,
            },
            final(self)@.history.wf(),
            final(self)@.history.width == old(self)@.history.width,
            final(self)@.history.capacity == old(self)@.history.capacity,
    {
        if self.current_line_number == u64::MAX {
            return Err(TerminalError::LogicalLineOverflow);
        }
        self.current_line_number = self.current_line_number + 1;
        self.line_history.add_line(self.current_line_number);
        Ok(())
    }

    fn process_byte(&mut self, byte: u8) -> (result: Result<(), TerminalError>)
        requires
            old(self)@.wf(),
        ensures
            match result {
                Ok(()) => process_byte(old(self)@, byte) == Ok::<TerminalView, TerminalError>(
                    final(self)@,
                ) && final(self)@.wf(),
                Err(e) => process_byte(old(self)@, byte) == Err::<TerminalView, TerminalError>(e)
                    && final(self)@ == failed_byte_state(old(self)@, byte),
            },
    {
        let character = byte as char;
        if byte == 0x0d {
            self.current_column = 0;
        } else if byte == 0x0a || byte == 0x0b {
            self.advance_line()?;
        } else if byte == 0x08 || byte == 0x0c {
            self.current_column = self.current_column.saturating_sub(1);
        } else if byte == 0x09 {
            proof {
                lemma_tab_stop(self.current_column);
            }
            self.current_column = (self.current_column.saturating_add(8)) & !7usize;
        } else if is_legacy_printable_ascii(byte) {
            self.line_history.add_char(self.current_column, character);
            self.current_column = self.current_column.saturating_add(1);
        }
        let ghost printed = self@;
        assert(print_byte(old(self)@, byte) == Ok::<TerminalView, TerminalError>(printed));
        if self.autowrap && self.current_column >= self.width {
            self.current_column = self.current_column - self.width;
            self.advance_line()?;
        }
        if self.current_column > self.width - 1 {
            self.current_column = self.width - 1;
        }
        self.character_events.push_back(CharacterEvent { character, column: self.current_column });
        Ok(())
    }
}

} // verus!
