//! How a configuration becomes the runtime's starting state.

use vstd::prelude::*;
use crate::domain::config::{AppConfig, TerminalMode, ThrottleMode as ConfiguredPacing};
use crate::domain::events::{ApplicationCommand, CommunicationMode, ThrottleMode};
use crate::domain::terminal::TerminalOptions;
use crate::domain::throttle::ThrottleConfig;

verus! {

/// The printer geometry the configuration asks for.
pub fn terminal_options(config: &AppConfig) -> (options: TerminalOptions)
    ensures
        options.columns == config.terminal.config.columns,
        options.rows == config.terminal.config.rows,
        options.scrollback == config.terminal.config.scrollback,
        options.autowrap == config.terminal.config.autowrap,
{
    let terminal = &config.terminal.config;
    TerminalOptions {
        columns: terminal.columns,
        rows: terminal.rows,
        scrollback: terminal.scrollback,
        autowrap: terminal.autowrap,
    }
}

/// The configured rates, with the default queue capacities.
pub fn throttle_config(config: &AppConfig) -> (throttle: ThrottleConfig)
    ensures
        throttle == (ThrottleConfig {
            tx_rate_cps: config.data_throttle.config.send_rate_cps,
            rx_rate_cps: config.data_throttle.config.receive_rate_cps,
            tx_queue_capacity: 8,
            rx_queue_capacity: 8,
        }),
{
    let defaults = ThrottleConfig::default();
    ThrottleConfig {
        tx_rate_cps: config.data_throttle.config.send_rate_cps,
        rx_rate_cps: config.data_throttle.config.receive_rate_cps,
        ..defaults
    }
}

pub open spec fn communication_for(mode: TerminalMode) -> CommunicationMode {
    match mode {
        TerminalMode::Line => CommunicationMode::Line,
        TerminalMode::Local => CommunicationMode::Local,
    }
}

pub open spec fn pacing_for(mode: ConfiguredPacing) -> ThrottleMode {
    match mode {
        ConfiguredPacing::Throttled => ThrottleMode::Throttled,
        ConfiguredPacing::Unthrottled => ThrottleMode::Unthrottled,
    }
}

/// The communication and pacing modes the configuration selects.
pub fn configured_modes(config: &AppConfig) -> (modes: (CommunicationMode, ThrottleMode))
    ensures
        modes == (communication_for(config.terminal.config.mode), pacing_for(
            config.data_throttle.config.mode,
        )),
{
    let communication = match config.terminal.config.mode {
        TerminalMode::Line => CommunicationMode::Line,
        TerminalMode::Local => CommunicationMode::Local,
    };
    let throttle = match config.data_throttle.config.mode {
        ConfiguredPacing::Throttled => ThrottleMode::Throttled,
        ConfiguredPacing::Unthrottled => ThrottleMode::Unthrottled,
    };
    (communication, throttle)
}

/// The commands that bring a fresh runtime into the configured state. A startup
/// carriage return is never among them: it belongs to the first connection.
pub fn initial_commands(
    config: &AppConfig,
    communication_mode: CommunicationMode,
    throttle_mode: ThrottleMode,
    printer_enabled: bool,
) -> (commands: Vec<ApplicationCommand>)
    ensures
        commands@ == seq![
            ApplicationCommand::SetCommunicationMode(communication_mode),
            ApplicationCommand::SetThrottleMode(throttle_mode),
            ApplicationCommand::SetTxRate(config.data_throttle.config.send_rate_cps),
            ApplicationCommand::SetRxRate(config.data_throttle.config.receive_rate_cps),
            ApplicationCommand::SetPrinterEnabled(printer_enabled),
        ],
{
    let mut commands: Vec<ApplicationCommand> = Vec::new();
    commands.push(ApplicationCommand::SetCommunicationMode(communication_mode));
    commands.push(ApplicationCommand::SetThrottleMode(throttle_mode));
    commands.push(ApplicationCommand::SetTxRate(config.data_throttle.config.send_rate_cps));
    commands.push(ApplicationCommand::SetRxRate(config.data_throttle.config.receive_rate_cps));
    commands.push(ApplicationCommand::SetPrinterEnabled(printer_enabled));
    assert(commands@ =~= seq![
        ApplicationCommand::SetCommunicationMode(communication_mode),
        ApplicationCommand::SetThrottleMode(throttle_mode),
        ApplicationCommand::SetTxRate(config.data_throttle.config.send_rate_cps),
        ApplicationCommand::SetRxRate(config.data_throttle.config.receive_rate_cps),
        ApplicationCommand::SetPrinterEnabled(printer_enabled),
    ]);
    commands
}

/// What applying settings sends a running machine before its communication mode is
/// brought in line: the pacing only when it differs from `throttle_mode`, then both
/// configured rates.
pub open spec fn live_pacing_commands(config: AppConfig, throttle_mode: ThrottleMode) -> Seq<
    ApplicationCommand,
> {
    let pacing = pacing_for(config.data_throttle.config.mode);
    let rates = seq![
        ApplicationCommand::SetTxRate(config.data_throttle.config.send_rate_cps),
        ApplicationCommand::SetRxRate(config.data_throttle.config.receive_rate_cps),
    ];
    if pacing != throttle_mode {
        seq![ApplicationCommand::SetThrottleMode(pacing)] + rates
    } else {
        rates
    }
}

/// The pacing and rate commands that bring a running machine to `config`.
pub fn live_commands(config: &AppConfig, throttle_mode: ThrottleMode) -> (commands: Vec<
    ApplicationCommand,
>)
    ensures
        commands@ == live_pacing_commands(*config, throttle_mode),
{
    let (_, pacing) = configured_modes(config);
    let mut commands: Vec<ApplicationCommand> = Vec::new();
    if pacing != throttle_mode {
        commands.push(ApplicationCommand::SetThrottleMode(pacing));
    }
    commands.push(ApplicationCommand::SetTxRate(config.data_throttle.config.send_rate_cps));
    commands.push(ApplicationCommand::SetRxRate(config.data_throttle.config.receive_rate_cps));
    assert(commands@ =~= live_pacing_commands(*config, throttle_mode));
    commands
}

/// The printer command that applying `config` needs, if the printer must change.
pub fn live_printer_command(config: &AppConfig, printer_enabled: bool) -> (command: Option<
    ApplicationCommand,
>)
    ensures
        command == if config.terminal.config.no_print == printer_enabled {
            Some(ApplicationCommand::SetPrinterEnabled(!config.terminal.config.no_print))
        } else {
            None::<ApplicationCommand>
        },
{
    let printer = !config.terminal.config.no_print;
    if printer != printer_enabled {
        Some(ApplicationCommand::SetPrinterEnabled(printer))
    } else {
        None
    }
}

} // verus!
