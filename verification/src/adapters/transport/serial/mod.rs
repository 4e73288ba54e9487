//! Serial-port settings and descriptions shared by the platform adapters.

use vstd::prelude::*;
use crate::domain::config::{SerialConfig, SerialParity, StopBits, data_bits_value};
use crate::util::{decimal_text, push_char, push_chars, push_decimal};

pub mod settings;

verus! {

/// Whether a send was queued or ignored because it carried nothing.
#[derive(Debug, Clone, Copy, PartialEq, Eq, Structural)]
pub enum SendOutcome {
    Queued,
    IgnoredEmpty,
}

pub open spec fn parity_letter(parity: SerialParity) -> char {
    match parity {
        SerialParity::NoParity => 'N',
        SerialParity::Even => 'E',
        SerialParity::Odd => 'O',
        SerialParity::Mark => 'M',
        SerialParity::Space => 'S',
    }
}

pub fn parity_label(parity: SerialParity) -> (label: char)
    ensures
        label == parity_letter(parity),
{
    match parity {
        SerialParity::NoParity => 'N',
        SerialParity::Even => 'E',
        SerialParity::Odd => 'O',
        SerialParity::Mark => 'M',
        SerialParity::Space => 'S',
    }
}

pub fn stop_bits_label(stop_bits: StopBits) -> (label: &'static str)
    ensures
        label == (match stop_bits {
            StopBits::One => "1",
            StopBits::OnePointFive => "1.5",
            StopBits::Two => "2",
        }),
{
    match stop_bits {
        StopBits::One => "1",
        StopBits::OnePointFive => "1.5",
        StopBits::Two => "2",
    }
}

/// `PORT:BAUD-<data bits><parity letter><stop bits>`, e.g. `COM1:110-7M1.5`.
pub open spec fn info_text(config: SerialConfig) -> Seq<char> {
    config.port@ + seq![':'] + decimal_text(config.baudrate as nat) + seq!['-'] + decimal_text(
        data_bits_value(config.databits) as nat,
    ) + seq![parity_letter(config.parity)] + (match config.stopbits {
        StopBits::One => "1",
        StopBits::OnePointFive => "1.5",
        StopBits::Two => "2",
    })@
}

/// The one-line description of a serial connection.
pub fn info_string(config: &SerialConfig) -> (info: String)
    ensures
        info@ == info_text(*config),
{
    let mut info = config.port.clone();
    push_char(&mut info, ':');
    push_decimal(&mut info, config.baudrate as u64);
    push_char(&mut info, '-');
    push_decimal(&mut info, config.databits.to_u8() as u64);
    push_char(&mut info, parity_label(config.parity));
    push_chars(&mut info, stop_bits_label(config.stopbits));
    assert(info@ =~= info_text(*config));
    info
}

} // verus!
