//! Strongly typed configuration, validation and command-line overrides.
//!
//! The parsed file and the effective configuration are independently owned: CLI
//! overrides apply to a copy and never change the parsed file value.

use vstd::prelude::*;

verus! {

/// Values accepted for the frontend setting.
#[derive(Clone, Copy, Debug, Eq, PartialEq, Structural)]
pub enum FrontendConfigValue {
    LegacyTkinter,
    LegacyPygame,
}

#[derive(Clone, Copy, Debug, Eq, PartialEq, Structural)]
pub struct FrontendSection {
    pub kind: FrontendConfigValue,
}

#[derive(Clone, Copy, Debug, Eq, PartialEq, Structural)]
pub enum LidState {
    Up,
    Down,
}

#[derive(Clone, Copy, Debug, Eq, PartialEq, Structural)]
pub enum MuteState {
    Muted,
    Unmuted,
}

#[derive(Clone, Copy, Debug, Eq, PartialEq, Structural)]
pub struct SoundConfig {
    pub lid: LidState,
    pub mute_state: MuteState,
}

#[derive(Clone, Copy, Debug, Eq, PartialEq, Structural)]
pub struct SoundSection {
    pub config: SoundConfig,
}

#[derive(Clone, Copy, Debug, Eq, PartialEq, Structural)]
pub enum TerminalMode {
    Line,
    Local,
}

#[derive(Clone, Copy, Debug, Eq, PartialEq, Structural)]
pub enum KeyboardParityMode {
    Mark,
    Space,
    Even,
}

/// How a carriage return typed or read is sent: raw CR, or CR followed by LF.
#[derive(Clone, Copy, Debug, Eq, PartialEq, Structural)]
pub enum KeyboardReturnMode {
    Cr,
    CrLf,
}

/// The return-key and paper-tape line-ending mode.
pub type InputReturnMode = KeyboardReturnMode;

#[derive(Clone, Debug)]
pub struct TerminalConfig {
    pub mode: TerminalMode,
    pub columns: usize,
    pub rows: usize,
    pub scrollback: usize,
    pub autowrap: bool,
    pub keyboard_uppercase_only: bool,
    pub keyboard_parity_mode: KeyboardParityMode,
    pub keyboard_repeat: bool,
    pub input_return_mode: InputReturnMode,
    pub paste_on_right_click: bool,
    pub send_cr_at_startup: bool,
    pub no_print: bool,
    pub font_path: Option<String>,
    pub font_size: usize,
}

#[derive(Clone, Debug)]
pub struct TerminalSection {
    pub config: TerminalConfig,
}

#[derive(Clone, Copy, Debug, Eq, PartialEq, Structural)]
pub enum BackendKind {
    Serial,
    Ssh,
}

#[derive(Clone, Copy, Debug, Eq, PartialEq, Structural)]
pub enum DataBits {
    Five,
    Six,
    Seven,
    Eight,
}

pub open spec fn data_bits_value(bits: DataBits) -> u8 {
    match bits {
        DataBits::Five => 5,
        DataBits::Six => 6,
        DataBits::Seven => 7,
        DataBits::Eight => 8,
    }
}

impl From<DataBits> for u8 {
    fn from(value: DataBits) -> (n: u8) {
        match value {
            DataBits::Five => 5,
            DataBits::Six => 6,
            DataBits::Seven => 7,
            DataBits::Eight => 8,
        }
    }
}

impl vstd::std_specs::convert::FromSpecImpl<DataBits> for u8 {
    open spec fn obeys_from_spec() -> bool {
        true
    }

    open spec fn from_spec(value: DataBits) -> u8 {
        data_bits_value(value)
    }
}

/// A number that names no variant of a numeric setting.
#[derive(Clone, Copy, Debug, Eq, PartialEq)]
pub struct NumericEnumError {
    pub kind: &'static str,
    pub value: u8,
}

impl DataBits {
    pub fn from_u8(value: u8) -> (result: Result<DataBits, NumericEnumError>)
        ensures
            match result {
                Ok(bits) => data_bits_value(bits) == value,
                Err(e) => !(5 <= value <= 8) && e.value == value,
            },
    {
        match value {
            5 => Ok(DataBits::Five),
            6 => Ok(DataBits::Six),
            7 => Ok(DataBits::Seven),
            8 => Ok(DataBits::Eight),
            _ => Err(NumericEnumError { kind: "data bits", value }),
        }
    }

    pub fn to_u8(self) -> (n: u8)
        ensures
            n == data_bits_value(self),
    {
        match self {
            DataBits::Five => 5,
            DataBits::Six => 6,
            DataBits::Seven => 7,
            DataBits::Eight => 8,
        }
    }
}

#[derive(Clone, Copy, Debug, Eq, PartialEq, Structural)]
pub enum SerialParity {
    NoParity,
    Even,
    Odd,
    Mark,
    Space,
}

#[derive(Clone, Copy, Debug, Eq, PartialEq, Structural)]
pub enum StopBits {
    One,
    OnePointFive,
    Two,
}

impl StopBits {
    /// A whole number of stop bits, as a configuration file writes it.
    pub fn from_count(count: u64) -> (stop_bits: Option<StopBits>)
        ensures
            stop_bits == (if count == 1 {
                Some(StopBits::One)
            } else if count == 2 {
                Some(StopBits::Two)
            } else {
                None::<StopBits>
            }),
    {
        if count == 1 {
            Some(StopBits::One)
        } else if count == 2 {
            Some(StopBits::Two)
        } else {
            None
        }
    }
}

#[derive(Clone, Debug)]
pub struct SerialConfig {
    pub port: String,
    pub baudrate: u32,
    pub databits: DataBits,
    pub parity: SerialParity,
    pub stopbits: StopBits,
}

#[derive(Clone, Copy, Debug, Eq, PartialEq, Structural)]
pub enum HostKeyPolicy {
    Strict,
    AcceptNew,
    Off,
}

#[derive(Clone)]
pub struct SshConfig {
    pub username: String,
    pub host: String,
    pub port: u16,
    pub key_filename: Option<String>,
    pub password: Option<String>,
    pub use_agent: bool,
    pub expected_fingerprint: Option<String>,
    pub host_key_policy: HostKeyPolicy,
    pub known_hosts_file: String,
    pub tofu_prompt: bool,
}

#[derive(Clone)]
pub struct BackendSection {
    pub kind: BackendKind,
    pub serial_config: SerialConfig,
    pub ssh_config: SshConfig,
}

#[derive(Clone, Copy, Debug, Eq, PartialEq, Structural)]
pub enum ThrottleMode {
    Throttled,
    Unthrottled,
}

#[derive(Clone, Copy, Debug, Eq, PartialEq, Structural)]
pub struct DataThrottleConfig {
    pub mode: ThrottleMode,
    pub send_rate_cps: i64,
    pub receive_rate_cps: i64,
}

#[derive(Clone, Copy, Debug, Eq, PartialEq, Structural)]
pub struct DataThrottleSection {
    pub config: DataThrottleConfig,
}

#[derive(Clone, Copy, Debug, Eq, PartialEq, Structural)]
pub enum BitLabelBase {
    Zero,
    One,
}

impl BitLabelBase {
    pub fn from_u8(value: u8) -> (result: Result<BitLabelBase, NumericEnumError>)
        ensures
            match result {
                Ok(base) => base == (if value == 0 { BitLabelBase::Zero } else { BitLabelBase::One })
                    && value <= 1,
                Err(e) => value > 1 && e.value == value,
            },
    {
        match value {
            0 => Ok(BitLabelBase::Zero),
            1 => Ok(BitLabelBase::One),
            _ => Err(NumericEnumError { kind: "bit label base", value }),
        }
    }

    pub fn to_u8(self) -> (n: u8)
        ensures
            n == (match self {
                BitLabelBase::Zero => 0u8,
                BitLabelBase::One => 1u8,
            }),
    {
        match self {
            BitLabelBase::Zero => 0,
            BitLabelBase::One => 1,
        }
    }
}

#[derive(Clone, Debug)]
pub struct TapeReaderConfig {
    pub max_rows: usize,
    pub initial_file_path: String,
    pub skip_leading_nulls: bool,
    pub auto_stop: bool,
    pub set_msb: bool,
    pub ghost_outline: bool,
    pub bit_label_base: BitLabelBase,
    pub ascii_char_mask_msb: bool,
}

#[derive(Clone, Debug)]
pub struct TapeReaderSection {
    pub config: TapeReaderConfig,
}

#[derive(Clone, Copy, Debug, Eq, PartialEq, Structural)]
pub enum PunchConfigMode {
    Append,
    Overwrite,
}

#[derive(Clone, Debug)]
pub struct TapePunchConfig {
    pub max_rows: usize,
    pub initial_file_path: String,
    pub mode: PunchConfigMode,
    pub ghost_outline: bool,
    pub bit_label_base: BitLabelBase,
    pub ascii_char_mask_msb: bool,
}

#[derive(Clone, Debug)]
pub struct TapePunchSection {
    pub config: TapePunchConfig,
}

#[derive(Clone)]
pub struct AppConfig {
    pub frontend: FrontendSection,
    pub sound: SoundSection,
    pub terminal: TerminalSection,
    pub backend: BackendSection,
    pub data_throttle: DataThrottleSection,
    pub tape_reader: TapeReaderSection,
    pub tape_punch: TapePunchSection,
}

/// An optional string compared by its characters.
pub open spec fn opt_text(value: Option<String>) -> Option<Seq<char>> {
    match value {
        Some(s) => Some(s@),
        None => None,
    }
}

pub(crate) fn same_opt_text(a: &Option<String>, b: &Option<String>) -> (same: bool)
    ensures
        same == (opt_text(*a) == opt_text(*b)),
{
    match a {
        Some(x) => match b {
            Some(y) => *x == *y,
            None => false,
        },
        None => b.is_none(),
    }
}

/// Two terminal settings agree in every field (paths and strings by their characters).
pub open spec fn same_terminal(a: TerminalConfig, b: TerminalConfig) -> bool {
    &&& a.mode == b.mode
    &&& a.columns == b.columns
    &&& a.rows == b.rows
    &&& a.scrollback == b.scrollback
    &&& a.autowrap == b.autowrap
    &&& a.keyboard_uppercase_only == b.keyboard_uppercase_only
    &&& a.keyboard_parity_mode == b.keyboard_parity_mode
    &&& a.keyboard_repeat == b.keyboard_repeat
    &&& a.input_return_mode == b.input_return_mode
    &&& a.paste_on_right_click == b.paste_on_right_click
    &&& a.send_cr_at_startup == b.send_cr_at_startup
    &&& a.no_print == b.no_print
    &&& opt_text(a.font_path) == opt_text(b.font_path)
    &&& a.font_size == b.font_size
}

pub open spec fn same_serial(a: SerialConfig, b: SerialConfig) -> bool {
    &&& a.port@ == b.port@
    &&& a.baudrate == b.baudrate
    &&& a.databits == b.databits
    &&& a.parity == b.parity
    &&& a.stopbits == b.stopbits
}

pub open spec fn same_ssh(a: SshConfig, b: SshConfig) -> bool {
    &&& a.username@ == b.username@
    &&& a.host@ == b.host@
    &&& a.port == b.port
    &&& opt_text(a.key_filename) == opt_text(b.key_filename)
    &&& opt_text(a.password) == opt_text(b.password)
    &&& a.use_agent == b.use_agent
    &&& opt_text(a.expected_fingerprint) == opt_text(b.expected_fingerprint)
    &&& a.host_key_policy == b.host_key_policy
    &&& a.known_hosts_file@ == b.known_hosts_file@
    &&& a.tofu_prompt == b.tofu_prompt
}

pub open spec fn same_tape_reader(a: TapeReaderConfig, b: TapeReaderConfig) -> bool {
    &&& a.max_rows == b.max_rows
    &&& a.initial_file_path@ == b.initial_file_path@
    &&& a.skip_leading_nulls == b.skip_leading_nulls
    &&& a.auto_stop == b.auto_stop
    &&& a.set_msb == b.set_msb
    &&& a.ghost_outline == b.ghost_outline
    &&& a.bit_label_base == b.bit_label_base
    &&& a.ascii_char_mask_msb == b.ascii_char_mask_msb
}

pub open spec fn same_tape_punch(a: TapePunchConfig, b: TapePunchConfig) -> bool {
    &&& a.max_rows == b.max_rows
    &&& a.initial_file_path@ == b.initial_file_path@
    &&& a.mode == b.mode
    &&& a.ghost_outline == b.ghost_outline
    &&& a.bit_label_base == b.bit_label_base
    &&& a.ascii_char_mask_msb == b.ascii_char_mask_msb
}

/// Two configurations agree in every setting.
pub open spec fn same_config(a: AppConfig, b: AppConfig) -> bool {
    &&& a.frontend == b.frontend
    &&& a.sound == b.sound
    &&& same_terminal(a.terminal.config, b.terminal.config)
    &&& a.backend.kind == b.backend.kind
    &&& same_serial(a.backend.serial_config, b.backend.serial_config)
    &&& same_ssh(a.backend.ssh_config, b.backend.ssh_config)
    &&& a.data_throttle == b.data_throttle
    &&& same_tape_reader(a.tape_reader.config, b.tape_reader.config)
    &&& same_tape_punch(a.tape_punch.config, b.tape_punch.config)
}

impl TerminalConfig {
    pub fn same_as(&self, other: &TerminalConfig) -> (same: bool)
        ensures
            same == same_terminal(*self, *other),
    {
        self.mode == other.mode && self.columns == other.columns && self.rows == other.rows
            && self.scrollback == other.scrollback && self.autowrap == other.autowrap
            && self.keyboard_uppercase_only == other.keyboard_uppercase_only
            && self.keyboard_parity_mode == other.keyboard_parity_mode
            && self.keyboard_repeat == other.keyboard_repeat
            && self.input_return_mode == other.input_return_mode
            && self.paste_on_right_click == other.paste_on_right_click
            && self.send_cr_at_startup == other.send_cr_at_startup
            && self.no_print == other.no_print && same_opt_text(&self.font_path, &other.font_path)
            && self.font_size == other.font_size
    }
}

impl SerialConfig {
    pub fn same_as(&self, other: &SerialConfig) -> (same: bool)
        ensures
            same == same_serial(*self, *other),
    {
        self.port == other.port && self.baudrate == other.baudrate && self.databits
            == other.databits && self.parity == other.parity && self.stopbits == other.stopbits
    }
}

impl SshConfig {
    pub fn same_as(&self, other: &SshConfig) -> (same: bool)
        ensures
            same == same_ssh(*self, *other),
    {
        self.username == other.username && self.host == other.host && self.port == other.port
            && same_opt_text(&self.key_filename, &other.key_filename) && same_opt_text(
            &self.password,
            &other.password,
        ) && self.use_agent == other.use_agent && same_opt_text(
            &self.expected_fingerprint,
            &other.expected_fingerprint,
        ) && self.host_key_policy == other.host_key_policy && self.known_hosts_file
            == other.known_hosts_file && self.tofu_prompt == other.tofu_prompt
    }
}

impl TapeReaderConfig {
    pub fn same_as(&self, other: &TapeReaderConfig) -> (same: bool)
        ensures
            same == same_tape_reader(*self, *other),
    {
        self.max_rows == other.max_rows && self.initial_file_path == other.initial_file_path
            && self.skip_leading_nulls == other.skip_leading_nulls && self.auto_stop
            == other.auto_stop && self.set_msb == other.set_msb && self.ghost_outline
            == other.ghost_outline && self.bit_label_base == other.bit_label_base
            && self.ascii_char_mask_msb == other.ascii_char_mask_msb
    }
}

impl TapePunchConfig {
    pub fn same_as(&self, other: &TapePunchConfig) -> (same: bool)
        ensures
            same == same_tape_punch(*self, *other),
    {
        self.max_rows == other.max_rows && self.initial_file_path == other.initial_file_path
            && self.mode == other.mode && self.ghost_outline == other.ghost_outline
            && self.bit_label_base == other.bit_label_base && self.ascii_char_mask_msb
            == other.ascii_char_mask_msb
    }
}

/// Rejections of an invalid configuration, naming the offending setting.
#[derive(Clone, Copy, Debug, Eq, PartialEq)]
pub enum ValidationError {
    MustBePositive { field: &'static str },
    MustNotBeEmpty { field: &'static str },
    CapacityOverflow { field: &'static str },
}

impl ValidationError {
    /// The user-facing description, naming the offending setting.
    pub fn message(&self) -> (text: String)
        ensures
            text@ == (match *self {
                ValidationError::MustBePositive { field } => field@ + " must be greater than zero"@,
                ValidationError::MustNotBeEmpty { field } => field@ + " must not be empty"@,
                ValidationError::CapacityOverflow { field } => field@ + " overflows usize"@,
            }),
    {
        match self {
            ValidationError::MustBePositive { field } => {
                let mut text = (*field).to_owned();
                crate::util::push_chars(&mut text, " must be greater than zero");
                text
            },
            ValidationError::MustNotBeEmpty { field } => {
                let mut text = (*field).to_owned();
                crate::util::push_chars(&mut text, " must not be empty");
                text
            },
            ValidationError::CapacityOverflow { field } => {
                let mut text = (*field).to_owned();
                crate::util::push_chars(&mut text, " overflows usize");
                text
            },
        }
    }
}

/// Unicode `White_Space`, the set `str::trim` removes.
pub open spec fn is_white_space(c: char) -> bool {
    ||| '\u{9}' <= c <= '\u{d}'
    ||| c == ' '
    ||| c == '\u{85}'
    ||| c == '\u{a0}'
    ||| c == '\u{1680}'
    ||| '\u{2000}' <= c <= '\u{200a}'
    ||| c == '\u{2028}'
    ||| c == '\u{2029}'
    ||| c == '\u{202f}'
    ||| c == '\u{205f}'
    ||| c == '\u{3000}'
}

fn white_space(c: char) -> (w: bool)
    ensures
        w == is_white_space(c),
{
    ('\u{9}' <= c && c <= '\u{d}') || c == ' ' || c == '\u{85}' || c == '\u{a0}' || c
        == '\u{1680}' || ('\u{2000}' <= c && c <= '\u{200a}') || c == '\u{2028}' || c == '\u{2029}'
        || c == '\u{202f}' || c == '\u{205f}' || c == '\u{3000}'
}

/// A text setting is blank when nothing but white space remains after trimming.
pub open spec fn is_blank(text: Seq<char>) -> bool {
    forall|i: int| 0 <= i < text.len() ==> is_white_space(#[trigger] text[i])
}

pub fn text_is_blank(text: &str) -> (blank: bool)
    ensures
        blank == is_blank(text@),
{
    let n = text.unicode_len();
    let mut i: usize = 0;
    while i < n
        invariant
            n == text@.len(),
            i <= n,
            forall|j: int| 0 <= j < i ==> is_white_space(#[trigger] text@[j]),
        decreases n - i,
    {
        if !white_space(text.get_char(i)) {
            return false;
        }
        i += 1;
    }
    true
}

/// The first rule a configuration breaks, in the order the rules are checked.
pub open spec fn validation_outcome(c: AppConfig) -> Result<(), ValidationError> {
    let t = c.terminal.config;
    if t.columns == 0 {
        Err(ValidationError::MustBePositive { field: "terminal.config.columns" })
    } else if t.rows == 0 {
        Err(ValidationError::MustBePositive { field: "terminal.config.rows" })
    } else if t.rows + t.scrollback > usize::MAX {
        Err(
            ValidationError::CapacityOverflow {
                field: "terminal.config.rows + terminal.config.scrollback",
            },
        )
    } else if t.font_size == 0 {
        Err(ValidationError::MustBePositive { field: "terminal.config.font_size" })
    } else if c.backend.kind == BackendKind::Serial && is_blank(c.backend.serial_config.port@) {
        Err(ValidationError::MustNotBeEmpty { field: "backend.serial_config.port" })
    } else if c.backend.kind == BackendKind::Serial && c.backend.serial_config.baudrate == 0 {
        Err(ValidationError::MustBePositive { field: "backend.serial_config.baudrate" })
    } else if c.backend.kind == BackendKind::Ssh && is_blank(c.backend.ssh_config.username@) {
        Err(ValidationError::MustNotBeEmpty { field: "backend.ssh_config.username" })
    } else if c.backend.kind == BackendKind::Ssh && is_blank(c.backend.ssh_config.host@) {
        Err(ValidationError::MustNotBeEmpty { field: "backend.ssh_config.host" })
    } else if c.backend.kind == BackendKind::Ssh && c.backend.ssh_config.port == 0 {
        Err(ValidationError::MustBePositive { field: "backend.ssh_config.port" })
    } else if c.tape_reader.config.max_rows == 0 {
        Err(ValidationError::MustBePositive { field: "tape_reader.config.max_rows" })
    } else if c.tape_punch.config.max_rows == 0 {
        Err(ValidationError::MustBePositive { field: "tape_punch.config.max_rows" })
    } else {
        Ok(())
    }
}

/// A configuration is accepted exactly when every rule holds: the terminal has
/// columns, rows, a history that fits in memory and a font size; a serial backend
/// names a port and a positive baud rate; an SSH backend names a user, a host and a
/// port; both tape views show at least one row. Any broken rule refuses it.
pub proof fn lemma_validation_rules(c: AppConfig)
    ensures
        validation_outcome(c) is Ok <==> {
            let t = c.terminal.config;
            &&& t.columns > 0
            &&& t.rows > 0
            &&& t.rows + t.scrollback <= usize::MAX
            &&& t.font_size > 0
            &&& c.backend.kind == BackendKind::Serial ==> !is_blank(c.backend.serial_config.port@)
                && c.backend.serial_config.baudrate > 0
            &&& c.backend.kind == BackendKind::Ssh ==> !is_blank(c.backend.ssh_config.username@)
                && !is_blank(c.backend.ssh_config.host@) && c.backend.ssh_config.port > 0
            &&& c.tape_reader.config.max_rows > 0
            &&& c.tape_punch.config.max_rows > 0
        },
        c.backend.kind == BackendKind::Serial && c.backend.serial_config.baudrate == 0
            ==> validation_outcome(c) is Err,
{
}

/// Every command-line option that is given replaces its setting, the throttle rate
/// both the send and the receive rate; `--mute` mutes; an option that is not given
/// leaves its setting as the file had it, and so does everything the options do not
/// name.
pub proof fn lemma_cli_overrides(cli: ConfigCli, c: AppConfig)
    ensures
        ({
            let r = overridden(cli, c);
            &&& cli.throttle_rate matches Some(rate) ==> r.data_throttle.config.send_rate_cps == rate
                && r.data_throttle.config.receive_rate_cps == rate
            &&& cli.throttle_rate is None ==> r.data_throttle.config.send_rate_cps
                == c.data_throttle.config.send_rate_cps && r.data_throttle.config.receive_rate_cps
                == c.data_throttle.config.receive_rate_cps
            &&& r.data_throttle.config.mode == c.data_throttle.config.mode
            &&& cli.columns matches Some(v) ==> r.terminal.config.columns == v
            &&& cli.columns is None ==> r.terminal.config.columns == c.terminal.config.columns
            &&& cli.rows matches Some(v) ==> r.terminal.config.rows == v
            &&& cli.rows is None ==> r.terminal.config.rows == c.terminal.config.rows
            &&& cli.scrollback matches Some(v) ==> r.terminal.config.scrollback == v
            &&& cli.scrollback is None ==> r.terminal.config.scrollback == c.terminal.config.scrollback
            &&& cli.term_mode matches Some(v) ==> r.terminal.config.mode == v
            &&& cli.term_mode is None ==> r.terminal.config.mode == c.terminal.config.mode
            &&& cli.frontend matches Some(v) ==> r.frontend.kind == v
            &&& cli.frontend is None ==> r.frontend.kind == c.frontend.kind
            &&& cli.backend matches Some(v) ==> r.backend.kind == v
            &&& cli.backend is None ==> r.backend.kind == c.backend.kind
            &&& cli.baud matches Some(v) ==> r.backend.serial_config.baudrate == v
            &&& cli.baud is None ==> r.backend.serial_config.baudrate == c.backend.serial_config.baudrate
            &&& cli.databits matches Some(v) ==> r.backend.serial_config.databits == v
            &&& cli.databits is None ==> r.backend.serial_config.databits
                == c.backend.serial_config.databits
            &&& cli.parity matches Some(v) ==> r.backend.serial_config.parity == v
            &&& cli.parity is None ==> r.backend.serial_config.parity == c.backend.serial_config.parity
            &&& cli.stopbits matches Some(v) ==> r.backend.serial_config.stopbits == v
            &&& cli.stopbits is None ==> r.backend.serial_config.stopbits
                == c.backend.serial_config.stopbits
            &&& r.backend.serial_config.port == c.backend.serial_config.port
            &&& r.backend.ssh_config == c.backend.ssh_config
            &&& cli.mute ==> r.sound.config.mute_state == MuteState::Muted
            &&& !cli.mute ==> r.sound.config.mute_state == c.sound.config.mute_state
            &&& r.sound.config.lid == c.sound.config.lid
            &&& r.tape_reader == c.tape_reader
            &&& r.tape_punch == c.tape_punch
            &&& r.terminal.config.autowrap == c.terminal.config.autowrap
            &&& r.terminal.config.font_size == c.terminal.config.font_size
        }),
{
}

impl AppConfig {
    pub fn validate(&self) -> (result: Result<(), ValidationError>)
        ensures
            result == validation_outcome(*self),
            self.backend.kind == BackendKind::Serial && self.backend.serial_config.baudrate == 0
                ==> result is Err,
    {
        let terminal = &self.terminal.config;
        if terminal.columns == 0 {
            return Err(ValidationError::MustBePositive { field: "terminal.config.columns" });
        }
        if terminal.rows == 0 {
            return Err(ValidationError::MustBePositive { field: "terminal.config.rows" });
        }
        if terminal.rows.checked_add(terminal.scrollback).is_none() {
            return Err(
                ValidationError::CapacityOverflow {
                    field: "terminal.config.rows + terminal.config.scrollback",
                },
            );
        }
        if terminal.font_size == 0 {
            return Err(ValidationError::MustBePositive { field: "terminal.config.font_size" });
        }
        match self.backend.kind {
            BackendKind::Serial => {
                let serial = &self.backend.serial_config;
                if text_is_blank(serial.port.as_str()) {
                    return Err(ValidationError::MustNotBeEmpty { field: "backend.serial_config.port" });
                }
                if serial.baudrate == 0 {
                    return Err(
                        ValidationError::MustBePositive { field: "backend.serial_config.baudrate" },
                    );
                }
            },
            BackendKind::Ssh => {
                let ssh = &self.backend.ssh_config;
                if text_is_blank(ssh.username.as_str()) {
                    return Err(
                        ValidationError::MustNotBeEmpty { field: "backend.ssh_config.username" },
                    );
                }
                if text_is_blank(ssh.host.as_str()) {
                    return Err(ValidationError::MustNotBeEmpty { field: "backend.ssh_config.host" });
                }
                if ssh.port == 0 {
                    return Err(ValidationError::MustBePositive { field: "backend.ssh_config.port" });
                }
            },
        }
        if self.tape_reader.config.max_rows == 0 {
            return Err(ValidationError::MustBePositive { field: "tape_reader.config.max_rows" });
        }
        if self.tape_punch.config.max_rows == 0 {
            return Err(ValidationError::MustBePositive { field: "tape_punch.config.max_rows" });
        }
        Ok(())
    }

    /// A field-by-field copy.
    pub fn duplicate(&self) -> (copy: AppConfig)
        ensures
            same_config(copy, *self),
    {
        let t = &self.terminal.config;
        let s = &self.backend.serial_config;
        let h = &self.backend.ssh_config;
        let r = &self.tape_reader.config;
        let p = &self.tape_punch.config;
        AppConfig {
            frontend: self.frontend,
            sound: self.sound,
            terminal: TerminalSection {
                config: TerminalConfig {
                    mode: t.mode,
                    columns: t.columns,
                    rows: t.rows,
                    scrollback: t.scrollback,
                    autowrap: t.autowrap,
                    keyboard_uppercase_only: t.keyboard_uppercase_only,
                    keyboard_parity_mode: t.keyboard_parity_mode,
                    keyboard_repeat: t.keyboard_repeat,
                    input_return_mode: t.input_return_mode,
                    paste_on_right_click: t.paste_on_right_click,
                    send_cr_at_startup: t.send_cr_at_startup,
                    no_print: t.no_print,
                    font_path: copy_opt_text(&t.font_path),
                    font_size: t.font_size,
                },
            },
            backend: BackendSection {
                kind: self.backend.kind,
                serial_config: SerialConfig {
                    port: s.port.clone(),
                    baudrate: s.baudrate,
                    databits: s.databits,
                    parity: s.parity,
                    stopbits: s.stopbits,
                },
                ssh_config: SshConfig {
                    username: h.username.clone(),
                    host: h.host.clone(),
                    port: h.port,
                    key_filename: copy_opt_text(&h.key_filename),
                    password: copy_opt_text(&h.password),
                    use_agent: h.use_agent,
                    expected_fingerprint: copy_opt_text(&h.expected_fingerprint),
                    host_key_policy: h.host_key_policy,
                    known_hosts_file: h.known_hosts_file.clone(),
                    tofu_prompt: h.tofu_prompt,
                },
            },
            data_throttle: self.data_throttle,
            tape_reader: TapeReaderSection {
                config: TapeReaderConfig {
                    max_rows: r.max_rows,
                    initial_file_path: r.initial_file_path.clone(),
                    skip_leading_nulls: r.skip_leading_nulls,
                    auto_stop: r.auto_stop,
                    set_msb: r.set_msb,
                    ghost_outline: r.ghost_outline,
                    bit_label_base: r.bit_label_base,
                    ascii_char_mask_msb: r.ascii_char_mask_msb,
                },
            },
            tape_punch: TapePunchSection {
                config: TapePunchConfig {
                    max_rows: p.max_rows,
                    initial_file_path: p.initial_file_path.clone(),
                    mode: p.mode,
                    ghost_outline: p.ghost_outline,
                    bit_label_base: p.bit_label_base,
                    ascii_char_mask_msb: p.ascii_char_mask_msb,
                },
            },
        }
    }

    /// Whether every setting of the two configurations agrees.
    pub fn same_as(&self, other: &AppConfig) -> (same: bool)
        ensures
            same == same_config(*self, *other),
    {
        self.frontend == other.frontend && self.sound == other.sound
            && self.terminal.config.same_as(&other.terminal.config) && self.backend.kind
            == other.backend.kind && self.backend.serial_config.same_as(
            &other.backend.serial_config,
        ) && self.backend.ssh_config.same_as(&other.backend.ssh_config) && self.data_throttle
            == other.data_throttle && self.tape_reader.config.same_as(&other.tape_reader.config)
            && self.tape_punch.config.same_as(&other.tape_punch.config)
    }
}

fn copy_opt_text(value: &Option<String>) -> (copy: Option<String>)
    ensures
        opt_text(copy) == opt_text(*value),
{
    match value {
        Some(s) => Some(s.clone()),
        None => None,
    }
}

/// Command-line overrides. `None` and `false` leave the file value in place.
#[derive(Clone, Debug)]
pub struct ConfigCli {
    pub config: String,
    pub frontend: Option<FrontendConfigValue>,
    pub backend: Option<BackendKind>,
    pub term_mode: Option<TerminalMode>,
    pub columns: Option<usize>,
    pub rows: Option<usize>,
    pub scrollback: Option<usize>,
    pub throttle_rate: Option<i64>,
    pub mute: bool,
    pub baud: Option<u32>,
    pub databits: Option<DataBits>,
    pub parity: Option<SerialParity>,
    pub stopbits: Option<StopBits>,
}

pub open spec fn override_with<T>(value: Option<T>, current: T) -> T {
    match value {
        Some(v) => v,
        None => current,
    }
}

/// The configuration with every given override applied and every other setting kept.
pub open spec fn overridden(cli: ConfigCli, c: AppConfig) -> AppConfig {
    let t = c.terminal.config;
    let s = c.backend.serial_config;
    AppConfig {
        frontend: FrontendSection { kind: override_with(cli.frontend, c.frontend.kind) },
        sound: SoundSection {
            config: SoundConfig {
                mute_state: if cli.mute {
                    MuteState::Muted
                } else {
                    c.sound.config.mute_state
                },
                ..c.sound.config
            },
        },
        terminal: TerminalSection {
            config: TerminalConfig {
                mode: override_with(cli.term_mode, t.mode),
                columns: override_with(cli.columns, t.columns),
                rows: override_with(cli.rows, t.rows),
                scrollback: override_with(cli.scrollback, t.scrollback),
                ..t
            },
        },
        backend: BackendSection {
            kind: override_with(cli.backend, c.backend.kind),
            serial_config: SerialConfig {
                baudrate: override_with(cli.baud, s.baudrate),
                databits: override_with(cli.databits, s.databits),
                parity: override_with(cli.parity, s.parity),
                stopbits: override_with(cli.stopbits, s.stopbits),
                ..s
            },
            ..c.backend
        },
        data_throttle: DataThrottleSection {
            config: DataThrottleConfig {
                send_rate_cps: override_with(cli.throttle_rate, c.data_throttle.config.send_rate_cps),
                receive_rate_cps: override_with(
                    cli.throttle_rate,
                    c.data_throttle.config.receive_rate_cps,
                ),
                ..c.data_throttle.config
            },
        },
        ..c
    }
}

impl ConfigCli {
    pub fn apply_to(&self, config: &mut AppConfig)
        ensures
            *final(config) == overridden(*self, *old(config)),
            self.throttle_rate matches Some(rate) ==> final(config).data_throttle.config.send_rate_cps
                == rate && final(config).data_throttle.config.receive_rate_cps == rate,
    {
        config.frontend.kind = pick(self.frontend, config.frontend.kind);
        config.backend.kind = pick(self.backend, config.backend.kind);
        config.terminal.config.mode = pick(self.term_mode, config.terminal.config.mode);
        config.terminal.config.columns = pick(self.columns, config.terminal.config.columns);
        config.terminal.config.rows = pick(self.rows, config.terminal.config.rows);
        config.terminal.config.scrollback = pick(self.scrollback, config.terminal.config.scrollback);
        config.data_throttle.config.send_rate_cps = pick(
            self.throttle_rate,
            config.data_throttle.config.send_rate_cps,
        );
        config.data_throttle.config.receive_rate_cps = pick(
            self.throttle_rate,
            config.data_throttle.config.receive_rate_cps,
        );
        config.sound.config.mute_state = if self.mute {
            MuteState::Muted
        } else {
            config.sound.config.mute_state
        };
        config.backend.serial_config.baudrate = pick(self.baud, config.backend.serial_config.baudrate);
        config.backend.serial_config.databits = pick(
            self.databits,
            config.backend.serial_config.databits,
        );
        config.backend.serial_config.parity = pick(self.parity, config.backend.serial_config.parity);
        config.backend.serial_config.stopbits = pick(
            self.stopbits,
            config.backend.serial_config.stopbits,
        );
    }
}

fn pick<T: Copy>(value: Option<T>, current: T) -> (chosen: T)
    ensures
        chosen == override_with(value, current),
{
    match value {
        Some(v) => v,
        None => current,
    }
}

/// The configuration as parsed from its file, and the effective one after overrides.
#[derive(Clone)]
pub struct LoadedConfig {
    pub file: AppConfig,
    pub effective: AppConfig,
}

impl LoadedConfig {
    /// Apply the overrides to an independent copy of the parsed file and validate the result.
    pub fn from_parsed(file: AppConfig, cli: &ConfigCli) -> (result: Result<
        LoadedConfig,
        ValidationError,
    >)
        ensures
            match result {
                Ok(loaded) => {
                    &&& loaded.file == file
                    &&& same_config(loaded.effective, overridden(*cli, file))
                    &&& validation_outcome(loaded.effective) == Ok::<(), ValidationError>(())
                },
                Err(e) => exists|effective: AppConfig|
                    same_config(effective, overridden(*cli, file)) && validation_outcome(effective)
                        == Err::<(), ValidationError>(e),
            },
    {
        let mut effective = file.duplicate();
        let ghost copied = effective;
        cli.apply_to(&mut effective);
        proof {
            lemma_overridden_respects_same(*cli, copied, file);
        }
        match effective.validate() {
            Ok(()) => Ok(LoadedConfig { file, effective }),
            Err(e) => Err(e),
        }
    }
}

/// Overrides act on equal configurations alike.
pub proof fn lemma_overridden_respects_same(cli: ConfigCli, a: AppConfig, b: AppConfig)
    requires
        same_config(a, b),
    ensures
        same_config(overridden(cli, a), overridden(cli, b)),
{
}

} // verus!
