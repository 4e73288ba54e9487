//! Terminal lines, overstrike cells, and bounded scrollback.

use vstd::prelude::*;
use crate::util::{empty_string, push_char};

verus! {

/// Abstract content of one line: its logical number and every strike in every cell.
pub struct LineView {
    pub logical_number: u64,
    pub cells: Seq<Seq<char>>,
}

/// A blank line of `width` cells.
pub open spec fn blank_line(width: nat, logical_number: u64) -> LineView {
    LineView { logical_number, cells: Seq::new(width, |i: int| Seq::<char>::empty()) }
}

/// The line after striking `character` at `column`; columns beyond the edge are ignored.
pub open spec fn line_add_char(line: LineView, column: int, character: char) -> LineView {
    if 0 <= column < line.cells.len() {
        LineView {
            logical_number: line.logical_number,
            cells: line.cells.update(column, line.cells[column].push(character)),
        }
    } else {
        line
    }
}

/// The character visible on top of a cell: the last strike, or a space.
pub open spec fn top_of(cell: Seq<char>) -> char {
    if cell.len() == 0 {
        ' '
    } else {
        cell.last()
    }
}

/// One fixed-width terminal line. Each cell retains every overstrike.
#[derive(Clone, Debug)]
pub struct Line {
    logical_number: u64,
    cells: Vec<Vec<char>>,
}

impl View for Line {
    type V = LineView;

    closed spec fn view(&self) -> LineView {
        LineView {
            logical_number: self.logical_number,
            cells: self.cells@.map_values(|c: Vec<char>| c@),
        }
    }
}

impl Line {
    pub fn new(width: usize, logical_number: u64) -> (line: Self)
        ensures
            line@ == blank_line(width as nat, logical_number),
    {
        let mut cells: Vec<Vec<char>> = Vec::with_capacity(width);
        let mut i: usize = 0;
        while i < width
            invariant
                i <= width,
                cells@.len() == i,
                forall|j: int| 0 <= j < i ==> (#[trigger] cells@[j])@ == Seq::<char>::empty(),
            decreases width - i,
        {
            cells.push(Vec::new());
            i += 1;
        }
        let line = Line { logical_number, cells };
        assert(line@.cells =~= blank_line(width as nat, logical_number).cells);
        line
    }

    pub fn width(&self) -> (w: usize)
        ensures
            w == self@.cells.len(),
    {
        self.cells.len()
    }

    pub fn logical_number(&self) -> (n: u64)
        ensures
            n == self@.logical_number,
    {
        self.logical_number
    }

    pub fn add_char(&mut self, column: usize, character: char)
        ensures
            final(self)@ == line_add_char(old(self)@, column as int, character),
    {
        if column < self.cells.len() {
            self.cells[column].push(character);
            assert(self@.cells =~= old(self)@.cells.update(
                column as int,
                old(self)@.cells[column as int].push(character),
            ));
        }
    }

    /// Every strike at `column`, oldest first; empty beyond the edge.
    pub fn strike_stack(&self, column: usize) -> (stack: &[char])
        ensures
            stack@ == if column < self@.cells.len() {
                self@.cells[column as int]
            } else {
                Seq::<char>::empty()
            },
    {
        if column < self.cells.len() {
            self.cells[column].as_slice()
        } else {
            &[]
        }
    }

    /// The top character of every cell, left to right.
    pub fn top_characters(&self) -> (text: String)
        ensures
            text@ == self@.cells.map_values(|c: Seq<char>| top_of(c)),
    {
        let mut text = empty_string();
        let mut i: usize = 0;
        while i < self.cells.len()
            invariant
                i <= self.cells@.len(),
                text@ == self@.cells.take(i as int).map_values(|c: Seq<char>| top_of(c)),
            decreases self.cells@.len() - i,
        {
            let cell = &self.cells[i];
            let top = if cell.len() == 0 {
                ' '
            } else {
                cell[cell.len() - 1]
            };
            push_char(&mut text, top);
            assert(self@.cells.take(i + 1) =~= self@.cells.take(i as int).push(self@.cells[i as int]));
            i += 1;
        }
        assert(self@.cells.take(self@.cells.len() as int) =~= self@.cells);
        text
    }
}

/// Abstract scrollback: lines from oldest to newest, their width and the retained maximum.
pub struct HistoryView {
    pub width: usize,
    pub capacity: usize,
    pub lines: Seq<LineView>,
}

impl HistoryView {
    /// At least one line is always present, every line has the history's width,
    /// and no more lines are kept than the capacity allows.
    pub open spec fn wf(self) -> bool {
        &&& 1 <= self.lines.len()
        &&& self.lines.len() <= if self.capacity < 1 { 1 } else { self.capacity as int }
        &&& forall|i: int| 0 <= i < self.lines.len() ==> (#[trigger] self.lines[i]).cells.len()
            == self.width
    }
}

/// The history after striking a character into its newest line.
pub open spec fn history_add_char(h: HistoryView, column: int, character: char) -> HistoryView {
    HistoryView {
        lines: h.lines.update(
            h.lines.len() - 1,
            line_add_char(h.lines.last(), column, character),
        ),
        ..h
    }
}

/// The history after starting a new logical line, dropping the oldest beyond capacity.
pub open spec fn history_add_line(h: HistoryView, logical_number: u64) -> HistoryView {
    let grown = h.lines.push(blank_line(h.width as nat, logical_number));
    HistoryView {
        lines: if grown.len() > h.capacity {
            grown.drop_first()
        } else {
            grown
        },
        ..h
    }
}

/// A history holding one blank line.
pub open spec fn history_reset(h: HistoryView, logical_number: u64) -> HistoryView {
    HistoryView { lines: seq![blank_line(h.width as nat, logical_number)], ..h }
}

/// Bounded terminal scrollback, ordered from oldest to newest line.
#[derive(Clone, Debug)]
pub struct LineHistory {
    width: usize,
    capacity: usize,
    lines: Vec<Line>,
}

impl View for LineHistory {
    type V = HistoryView;

    closed spec fn view(&self) -> HistoryView {
        HistoryView {
            width: self.width,
            capacity: self.capacity,
            lines: self.lines@.map_values(|l: Line| l@),
        }
    }
}

impl LineHistory {
    pub fn new(capacity: usize, width: usize, initial_logical_number: u64) -> (history: Self)
        ensures
            history@.width == width,
            history@.capacity == capacity,
            history@.lines == seq![blank_line(width as nat, initial_logical_number)],
            history@.wf(),
    {
        let mut lines: Vec<Line> = Vec::new();
        lines.push(Line::new(width, initial_logical_number));
        let history = LineHistory { width, capacity, lines };
        assert(history@.lines =~= seq![blank_line(width as nat, initial_logical_number)]);
        history
    }

    pub fn add_char(&mut self, column: usize, character: char)
        requires
            old(self)@.wf(),
        ensures
            final(self)@ == history_add_char(old(self)@, column as int, character),
            final(self)@.wf(),
    {
        let last = self.lines.len() - 1;
        self.lines[last].add_char(column, character);
        assert(self@.lines =~= old(self)@.lines.update(
            last as int,
            line_add_char(old(self)@.lines.last(), column as int, character),
        ));
        assert forall|i: int| 0 <= i < self@.lines.len() implies (#[trigger] self@.lines[i]).cells.len()
            == self@.width by {
            assert(old(self)@.lines[i].cells.len() == old(self)@.width);
        }
    }

    pub fn add_line(&mut self, logical_number: u64)
        requires
            old(self)@.wf(),
        ensures
            final(self)@ == history_add_line(old(self)@, logical_number),
            final(self)@.wf(),
    {
        let line = Line::new(self.width, logical_number);
        self.lines.push(line);
        if self.lines.len() > self.capacity {
            self.lines.remove(0);
            assert(self@.lines =~= old(self)@.lines.push(
                blank_line(old(self)@.width as nat, logical_number),
            ).drop_first());
        } else {
            assert(self@.lines =~= old(self)@.lines.push(
                blank_line(old(self)@.width as nat, logical_number),
            ));
        }
    }

    /// Drop all retained paper and start again with one blank logical line.
    pub fn clear(&mut self, initial_logical_number: u64)
        ensures
            final(self)@ == history_reset(old(self)@, initial_logical_number),
            final(self)@.wf(),
    {
        self.lines.clear();
        self.lines.push(Line::new(self.width, initial_logical_number));
        assert(self@.lines =~= seq![blank_line(old(self)@.width as nat, initial_logical_number)]);
    }

    pub fn line(&self, row: usize) -> (line: Option<&Line>)
        ensures
            match line {
                Some(l) => row < self@.lines.len() && l@ == self@.lines[row as int],
                None => row >= self@.lines.len(),
            },
    {
        if row < self.lines.len() {
            Some(&self.lines[row])
        } else {
            None
        }
    }

    pub fn lines(&self) -> (lines: &Vec<Line>)
        ensures
            lines@.map_values(|l: Line| l@) == self@.lines,
    {
        &self.lines
    }

    pub fn len(&self) -> (n: usize)
        ensures
            n == self@.lines.len(),
    {
        self.lines.len()
    }

    pub fn is_empty(&self) -> (empty: bool)
        ensures
            empty == (self@.lines.len() == 0),
    {
        self.lines.len() == 0
    }

    pub fn top_logical_number(&self) -> (n: Option<u64>)
        ensures
            n == if self@.lines.len() == 0 {
                None
            } else {
                Some(self@.lines[0].logical_number)
            },
    {
        if self.lines.len() == 0 {
            None
        } else {
            Some(self.lines[0].logical_number())
        }
    }

    pub fn bottom_logical_number(&self) -> (n: Option<u64>)
        ensures
            n == if self@.lines.len() == 0 {
                None
            } else {
                Some(self@.lines.last().logical_number)
            },
    {
        if self.lines.len() == 0 {
            None
        } else {
            Some(self.lines[self.lines.len() - 1].logical_number())
        }
    }
}

} // verus!
