//! How the domain's serial settings map onto the native port interfaces.

use vstd::prelude::*;
use crate::domain::config::{SerialConfig, SerialParity, StopBits, data_bits_value};

verus! {

/// The line settings of a Win32 device control block.
#[derive(Debug, Clone, Copy, PartialEq, Eq, Structural)]
pub struct Win32DcbSettings {
    pub byte_size: u8,
    pub parity: u8,
    pub parity_check_enabled: bool,
    pub stop_bits: u8,
}

/// The DCB parity code: none, odd, even, mark, space.
pub open spec fn dcb_parity_code(parity: SerialParity) -> u8 {
    match parity {
        SerialParity::NoParity => 0,
        SerialParity::Odd => 1,
        SerialParity::Even => 2,
        SerialParity::Mark => 3,
        SerialParity::Space => 4,
    }
}

/// The DCB stop-bit code: one, one and a half, two.
pub open spec fn dcb_stop_code(stop_bits: StopBits) -> u8 {
    match stop_bits {
        StopBits::One => 0,
        StopBits::OnePointFive => 1,
        StopBits::Two => 2,
    }
}

pub open spec fn dcb_settings(config: SerialConfig) -> Win32DcbSettings {
    Win32DcbSettings {
        byte_size: data_bits_value(config.databits),
        parity: dcb_parity_code(config.parity),
        parity_check_enabled: config.parity != SerialParity::NoParity,
        stop_bits: dcb_stop_code(config.stopbits),
    }
}

impl Win32DcbSettings {
    pub fn from_config(config: &SerialConfig) -> (settings: Self)
        ensures
            settings == dcb_settings(*config),
    {
        let (parity, parity_check_enabled): (u8, bool) = match config.parity {
            SerialParity::NoParity => (0, false),
            SerialParity::Odd => (1, true),
            SerialParity::Even => (2, true),
            SerialParity::Mark => (3, true),
            SerialParity::Space => (4, true),
        };
        let stop_bits: u8 = match config.stopbits {
            StopBits::One => 0,
            StopBits::OnePointFive => 1,
            StopBits::Two => 2,
        };
        Win32DcbSettings {
            byte_size: config.databits.to_u8(),
            parity,
            parity_check_enabled,
            stop_bits,
        }
    }
}

impl<'a> From<&'a SerialConfig> for Win32DcbSettings {
    fn from(config: &'a SerialConfig) -> (settings: Self) {
        Self::from_config(config)
    }
}

impl<'a> vstd::std_specs::convert::FromSpecImpl<&'a SerialConfig> for Win32DcbSettings {
    open spec fn obeys_from_spec() -> bool {
        true
    }

    open spec fn from_spec(config: &'a SerialConfig) -> Win32DcbSettings {
        dcb_settings(*config)
    }
}

/// The termios flags POSIX offers: character size, PARENB, PARODD, CMSPAR and
/// CSTOPB.
#[derive(Debug, Clone, Copy, PartialEq, Eq, Structural)]
pub struct LinuxTermiosSettings {
    pub character_size: u8,
    pub parity_enabled: bool,
    pub odd_parity: bool,
    pub mark_or_space: bool,
    pub two_stop_bits: bool,
}

/// POSIX has only CSTOPB, so one and a half stop bits are sent as two.
pub open spec fn termios_settings(config: SerialConfig) -> LinuxTermiosSettings {
    LinuxTermiosSettings {
        character_size: data_bits_value(config.databits),
        parity_enabled: config.parity != SerialParity::NoParity,
        odd_parity: config.parity == SerialParity::Odd || config.parity == SerialParity::Mark,
        mark_or_space: config.parity == SerialParity::Mark || config.parity == SerialParity::Space,
        two_stop_bits: config.stopbits != StopBits::One,
    }
}

impl LinuxTermiosSettings {
    pub fn from_config(config: &SerialConfig) -> (settings: Self)
        ensures
            settings == termios_settings(*config),
    {
        let (parity_enabled, odd_parity, mark_or_space): (bool, bool, bool) = match config.parity {
            SerialParity::NoParity => (false, false, false),
            SerialParity::Even => (true, false, false),
            SerialParity::Odd => (true, true, false),
            SerialParity::Mark => (true, true, true),
            SerialParity::Space => (true, false, true),
        };
        let two_stop_bits = match config.stopbits {
            StopBits::One => false,
            StopBits::OnePointFive => true,
            StopBits::Two => true,
        };
        LinuxTermiosSettings {
            character_size: config.databits.to_u8(),
            parity_enabled,
            odd_parity,
            mark_or_space,
            two_stop_bits,
        }
    }
}

impl<'a> From<&'a SerialConfig> for LinuxTermiosSettings {
    fn from(config: &'a SerialConfig) -> (settings: Self) {
        Self::from_config(config)
    }
}

impl<'a> vstd::std_specs::convert::FromSpecImpl<&'a SerialConfig> for LinuxTermiosSettings {
    open spec fn obeys_from_spec() -> bool {
        true
    }

    open spec fn from_spec(config: &'a SerialConfig) -> LinuxTermiosSettings {
        termios_settings(*config)
    }
}

/// Mark and space parity both set CMSPAR and are told apart by PARODD alone.
pub proof fn lemma_mark_space_distinct(mark: SerialConfig, space: SerialConfig)
    requires
        mark.parity == SerialParity::Mark,
        space.parity == SerialParity::Space,
    ensures
        termios_settings(mark).mark_or_space && termios_settings(mark).odd_parity,
        termios_settings(space).mark_or_space && !termios_settings(space).odd_parity,
{
}

/// One and a half stop bits and two stop bits produce the same termios settings.
pub proof fn lemma_one_point_five_is_two(a: SerialConfig, b: SerialConfig)
    requires
        a.databits == b.databits,
        a.parity == b.parity,
        a.stopbits == StopBits::OnePointFive,
        b.stopbits == StopBits::Two,
    ensures
        termios_settings(a) == termios_settings(b),
        termios_settings(a).two_stop_bits,
{
}

} // verus!
