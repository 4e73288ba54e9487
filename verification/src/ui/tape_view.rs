//! What a paper-tape view shows: the physical columns and the rows of a tape.

use vstd::prelude::*;
use crate::domain::config::BitLabelBase;
use crate::util::{empty_string, push_char};
use super::theme::{Rgb, ThemePalette};

verus! {

#[derive(Clone, Copy, Debug, PartialEq, Eq, Structural)]
pub enum TapeColumn {
    Data(u8),
    Sprocket,
}

#[derive(Clone, Copy, Debug, PartialEq, Eq, Structural)]
pub struct TapeRow {
    pub offset: usize,
    pub byte: u8,
    pub ascii: char,
    pub marker: bool,
}

#[derive(Clone, Debug, PartialEq, Eq)]
pub struct PreparedTape {
    pub rows: Vec<TapeRow>,
}

#[derive(Clone, Copy, Debug, PartialEq, Eq, Structural)]
pub enum TapeSourceOrder {
    NewestFirst,
    OldestFirst,
}

/// The nine physical positions across the tape: three data holes, the sprocket,
/// then five data holes, labelled from the chosen base.
pub open spec fn columns_of(base: BitLabelBase) -> Seq<TapeColumn> {
    let first: u8 = match base {
        BitLabelBase::Zero => 0,
        BitLabelBase::One => 1,
    };
    seq![
        TapeColumn::Data(first),
        TapeColumn::Data((first + 1) as u8),
        TapeColumn::Data((first + 2) as u8),
        TapeColumn::Sprocket,
        TapeColumn::Data((first + 3) as u8),
        TapeColumn::Data((first + 4) as u8),
        TapeColumn::Data((first + 5) as u8),
        TapeColumn::Data((first + 6) as u8),
        TapeColumn::Data((first + 7) as u8),
    ]
}

pub fn tape_columns(base: BitLabelBase) -> (columns: [TapeColumn; 9])
    ensures
        columns@ == columns_of(base),
{
    let first: u8 = match base {
        BitLabelBase::Zero => 0,
        BitLabelBase::One => 1,
    };
    let columns = [
        TapeColumn::Data(first),
        TapeColumn::Data(first + 1),
        TapeColumn::Data(first + 2),
        TapeColumn::Sprocket,
        TapeColumn::Data(first + 3),
        TapeColumn::Data(first + 4),
        TapeColumn::Data(first + 5),
        TapeColumn::Data(first + 6),
        TapeColumn::Data(first + 7),
    ];
    assert(columns@ =~= columns_of(base));
    columns
}

/// The upper-case hexadecimal digit for `d` below sixteen.
pub open spec fn hex_digit(d: u8) -> char {
    if d < 10 {
        ((d + 48) as u8) as char
    } else {
        ((d + 55) as u8) as char
    }
}

pub open spec fn octal_digit(d: u8) -> char {
    ((d + 48) as u8) as char
}

/// `0xHH 0oOOO`: two upper-case hexadecimal digits and three octal digits.
pub open spec fn tape_numeric_text(byte: u8) -> Seq<char> {
    seq![
        '0',
        'x',
        hex_digit(byte / 16),
        hex_digit(byte % 16),
        ' ',
        '0',
        'o',
        octal_digit(byte / 64),
        octal_digit((byte / 8) % 8),
        octal_digit(byte % 8),
    ]
}

fn hex_char(d: u8) -> (c: char)
    requires
        d < 16,
    ensures
        c == hex_digit(d),
{
    if d < 10 {
        (d + 48) as char
    } else {
        (d + 55) as char
    }
}

fn octal_char(d: u8) -> (c: char)
    requires
        d < 8,
    ensures
        c == octal_digit(d),
{
    (d + 48) as char
}

pub fn format_tape_numeric(byte: u8) -> (text: String)
    ensures
        text@ == tape_numeric_text(byte),
{
    let mut text = empty_string();
    push_char(&mut text, '0');
    push_char(&mut text, 'x');
    push_char(&mut text, hex_char(byte / 16));
    push_char(&mut text, hex_char(byte % 16));
    push_char(&mut text, ' ');
    push_char(&mut text, '0');
    push_char(&mut text, 'o');
    push_char(&mut text, octal_char(byte / 64));
    push_char(&mut text, octal_char((byte / 8) % 8));
    push_char(&mut text, octal_char(byte % 8));
    assert(text@ =~= tape_numeric_text(byte));
    text
}

/// The character shown beside a row: printable ASCII and space as themselves,
/// anything else as a middle dot.
pub open spec fn tape_ascii_char(byte: u8, mask_msb: bool) -> char {
    let value: u8 = if mask_msb {
        byte & 0x7f
    } else {
        byte
    };
    if 0x20 <= value <= 0x7e {
        value as char
    } else {
        '\u{b7}'
    }
}

pub fn tape_ascii(byte: u8, mask_msb: bool) -> (c: char)
    ensures
        c == tape_ascii_char(byte, mask_msb),
{
    let value: u8 = if mask_msb {
        byte & 0x7f
    } else {
        byte
    };
    if 0x20 <= value && value <= 0x7e {
        value as char
    } else {
        '\u{b7}'
    }
}

/// The source offset of the row shown at `index`.
pub open spec fn row_offset(len: nat, index: int, order: TapeSourceOrder) -> int {
    match order {
        TapeSourceOrder::NewestFirst => index,
        TapeSourceOrder::OldestFirst => len - 1 - index,
    }
}

/// The rows a view shows: at most `max_rows`, walking the bytes in `order`, the
/// first one marked when asked.
pub open spec fn prepared_rows(
    bytes: Seq<u8>,
    max_rows: usize,
    mask_msb: bool,
    order: TapeSourceOrder,
    mark_newest: bool,
) -> Seq<TapeRow> {
    let count = if bytes.len() < max_rows {
        bytes.len()
    } else {
        max_rows as nat
    };
    Seq::new(
        count,
        |index: int|
            {
                let offset = row_offset(bytes.len(), index, order);
                TapeRow {
                    offset: offset as usize,
                    byte: bytes[offset],
                    ascii: tape_ascii_char(bytes[offset], mask_msb),
                    marker: mark_newest && index == 0,
                }
            },
    )
}

pub fn prepare_tape(
    bytes: &[u8],
    max_rows: usize,
    mask_msb: bool,
    order: TapeSourceOrder,
    mark_newest: bool,
) -> (prepared: PreparedTape)
    ensures
        prepared.rows@ == prepared_rows(bytes@, max_rows, mask_msb, order, mark_newest),
{
    let len = bytes.len();
    let count = if len < max_rows {
        len
    } else {
        max_rows
    };
    let mut rows: Vec<TapeRow> = Vec::with_capacity(count);
    let mut index: usize = 0;
    while index < count
        invariant
            len == bytes@.len(),
            count <= len,
            count == (if bytes@.len() < max_rows {
                bytes@.len()
            } else {
                max_rows as nat
            }),
            index <= count,
            rows@ == prepared_rows(bytes@, max_rows, mask_msb, order, mark_newest).take(
                index as int,
            ),
        decreases count - index,
    {
        let offset = match order {
            TapeSourceOrder::NewestFirst => index,
            TapeSourceOrder::OldestFirst => len - 1 - index,
        };
        let byte = bytes[offset];
        rows.push(
            TapeRow {
                offset,
                byte,
                ascii: tape_ascii(byte, mask_msb),
                marker: mark_newest && index == 0,
            },
        );
        assert(rows@ =~= prepared_rows(bytes@, max_rows, mask_msb, order, mark_newest).take(
            index + 1,
        ));
        index += 1;
    }
    assert(rows@ =~= prepared_rows(bytes@, max_rows, mask_msb, order, mark_newest));
    PreparedTape { rows }
}

/// The read head's marker colour and the colour drawn over it.
pub fn head_colors(palette: ThemePalette) -> (colors: (Rgb, Rgb))
    ensures
        colors == (palette.active, palette.text),
{
    (palette.active, palette.text)
}

} // verus!
