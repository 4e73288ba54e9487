use asr33emu::domain::config::{
    AppConfig, BackendKind, BackendSection, BitLabelBase, DataBits, DataThrottleConfig,
    DataThrottleSection, FrontendConfigValue, FrontendSection, HostKeyPolicy, KeyboardParityMode,
    KeyboardReturnMode, LidState, MuteState, PunchConfigMode, SerialConfig, SerialParity,
    SoundConfig, SoundSection, SshConfig, StopBits, TapePunchConfig, TapePunchSection,
    TapeReaderConfig, TapeReaderSection, TerminalConfig, TerminalMode, TerminalSection,
    ThrottleMode,
};
use asr33emu::app::config_controller::{
    SaveError,
    serial_reconnect_required, ChangeClass, ConfigChangePlan, SettingsState,
};
use asr33emu::app::startup::{
    configured_modes, initial_commands, live_commands, live_printer_command, terminal_options,
    throttle_config,
};
use asr33emu::domain::config::{ConfigCli, LoadedConfig, ValidationError};
use asr33emu::domain::events::{ApplicationCommand, CommunicationMode, ThrottleMode as Pacing};
use asr33emu::ui::settings::{pages, status_text, AppView, SettingsAction, SettingsPage, SettingsView};
use asr33emu::ui::theme::ThemeKind;

/// The bundled default configuration: a 72-column LINE-mode teletype on a
/// 110-baud serial port, paced at ten characters per second.
fn config() -> AppConfig {
    AppConfig {
        frontend: FrontendSection {
            kind: FrontendConfigValue::LegacyTkinter,
        },
        sound: SoundSection {
            config: SoundConfig {
                lid: LidState::Up,
                mute_state: MuteState::Unmuted,
            },
        },
        terminal: TerminalSection {
            config: TerminalConfig {
                mode: TerminalMode::Line,
                columns: 72,
                rows: 24,
                scrollback: 200,
                autowrap: true,
                keyboard_uppercase_only: true,
                keyboard_parity_mode: KeyboardParityMode::Space,
                keyboard_repeat: false,
                input_return_mode: KeyboardReturnMode::Cr,
                paste_on_right_click: false,
                send_cr_at_startup: false,
                no_print: false,
                font_path: None,
                font_size: 18,
            },
        },
        backend: BackendSection {
            kind: BackendKind::Serial,
            serial_config: SerialConfig {
                port: "COM1".to_owned(),
                baudrate: 110,
                databits: DataBits::Eight,
                parity: SerialParity::NoParity,
                stopbits: StopBits::One,
            },
            ssh_config: SshConfig {
                username: "user".to_owned(),
                host: "localhost".to_owned(),
                port: 22,
                key_filename: None,
                password: None,
                use_agent: true,
                expected_fingerprint: None,
                host_key_policy: HostKeyPolicy::Strict,
                known_hosts_file: "known_hosts".to_owned(),
                tofu_prompt: true,
            },
        },
        data_throttle: DataThrottleSection {
            config: DataThrottleConfig {
                mode: ThrottleMode::Throttled,
                send_rate_cps: 10,
                receive_rate_cps: 10,
            },
        },
        tape_reader: TapeReaderSection {
            config: TapeReaderConfig {
                max_rows: 200,
                initial_file_path: String::new(),
                skip_leading_nulls: true,
                auto_stop: true,
                set_msb: false,
                ghost_outline: true,
                bit_label_base: BitLabelBase::One,
                ascii_char_mask_msb: true,
            },
        },
        tape_punch: TapePunchSection {
            config: TapePunchConfig {
                max_rows: 200,
                initial_file_path: String::new(),
                mode: PunchConfigMode::Append,
                ghost_outline: true,
                bit_label_base: BitLabelBase::One,
                ascii_char_mask_msb: true,
            },
        },
    }
}

#[test]
fn disk_applied_draft_transitions_are_explicit() {
    let a = config();
    let mut state = SettingsState::new("x.yaml".into(), a.clone(), a.clone());
    state.draft_config.terminal.config.columns += 1;
    assert!(state.draft_dirty());
    state.cancel();
    assert!(state.draft_config.same_as(&a));
    state.draft_config.terminal.config.columns += 1;
    let plan = state.plan();
    state.commit_apply(&plan);
    assert!(state.unsaved());
    assert!(!state.draft_dirty());
    assert!(
        state
            .pending_restart
            .contains(&"terminal dimensions/history")
    );
    state.draft_config.terminal.config.rows += 1;
    state.revert();
    assert!(state.draft_config.same_as(&state.applied_config));
    state.draft_config = a;
    let plan = state.plan();
    state.commit_apply(&plan);
    assert!(state.pending_restart.is_empty());
}

#[test]
fn save_persists_complete_effective_state_and_advances_disk_snapshot() {
    let a = config();
    let mut state = SettingsState::new("cli-selected.yaml".to_owned(), a.clone(), a);
    state.draft_config.terminal.config.columns = 93;
    let plan = state.plan();
    state.commit_apply(&plan);
    let mut written = None;
    state
        .save_applied(|config: &AppConfig| -> Result<(), String> {
            written = Some(config.clone());
            Ok(())
        })
        .expect("save");
    assert!(!state.unsaved());
    assert_eq!(state.path(), "cli-selected.yaml");
    assert_eq!(written.expect("written").terminal.config.columns, 93);
}

#[test]
fn failed_save_keeps_the_disk_snapshot() {
    let a = config();
    let mut state = SettingsState::new("x.yaml".to_owned(), a.clone(), a);
    state.draft_config.terminal.config.columns = 90;
    let plan = state.plan();
    state.commit_apply(&plan);
    let result = state.save_applied(|_: &AppConfig| -> Result<(), String> { Err("disk full".to_owned()) });
    assert_eq!(result, Err(SaveError::Write("disk full".to_owned())));
    assert!(state.unsaved());
    assert_eq!(state.disk_config.terminal.config.columns, 72);
}

#[test]
fn representative_changes_have_required_classification() {
    let a = config();
    let mut b = a.clone();
    b.terminal.config.mode = TerminalMode::Local;
    b.terminal.config.input_return_mode = KeyboardReturnMode::CrLf;
    b.terminal.config.paste_on_right_click = !a.terminal.config.paste_on_right_click;
    b.terminal.config.keyboard_repeat = !a.terminal.config.keyboard_repeat;
    assert!(
        ConfigChangePlan::between(&a, &b)
            .changes
            .iter()
            .all(|x| x.class == ChangeClass::Live)
    );
    assert!(
        ConfigChangePlan::between(&a, &b)
            .changes
            .iter()
            .any(|x| x.label == "right-click paste" && x.class == ChangeClass::Live)
    );
    assert!(
        ConfigChangePlan::between(&a, &b)
            .changes
            .iter()
            .any(|x| x.label == "keyboard repeat" && x.class == ChangeClass::Live)
    );
    let mut b = a.clone();
    b.backend.serial_config.port = "COM5".into();
    assert!(ConfigChangePlan::between(&a, &b).requires_reconnect());
    let mut b = a.clone();
    b.terminal.config.columns += 1;
    b.terminal.config.send_cr_at_startup = !b.terminal.config.send_cr_at_startup;
    assert!(ConfigChangePlan::between(&a, &b).requires_restart());
}

#[test]
fn sound_changes_are_live() {
    let a = config();
    let mut b = a.clone();
    b.sound.config.lid = match a.sound.config.lid {
        LidState::Up => LidState::Down,
        LidState::Down => LidState::Up,
    };
    b.sound.config.mute_state = match a.sound.config.mute_state {
        MuteState::Muted => MuteState::Unmuted,
        MuteState::Unmuted => MuteState::Muted,
    };
    let plan = ConfigChangePlan::between(&a, &b);
    assert!(
        plan.changes
            .iter()
            .any(|change| change.label == "sound" && change.class == ChangeClass::Live)
    );
}

#[test]
fn desired_serial_differs_from_active_until_explicit_reconnect() {
    let a = config().backend.serial_config;
    let mut b = a.clone();
    b.baudrate /= 2;
    assert!(serial_reconnect_required(Some(&a), &b));
    assert!(!serial_reconnect_required(None, &b));
    assert!(!serial_reconnect_required(Some(&b), &b));
}

#[test]
fn identical_configurations_plan_no_changes_in_a_fixed_order_otherwise() {
    let a = config();
    assert!(ConfigChangePlan::between(&a, &a.clone()).changes.is_empty());
    let mut b = a.clone();
    b.sound.config.lid = LidState::Down;
    b.terminal.config.autowrap = false;
    b.terminal.config.mode = TerminalMode::Local;
    let labels: Vec<&str> = ConfigChangePlan::between(&a, &b)
        .changes
        .iter()
        .map(|change| change.label)
        .collect();
    assert_eq!(labels, ["communication mode", "autowrap", "sound"]);
}

#[test]
fn reconnect_stays_pending_until_cleared() {
    let a = config();
    let mut state = SettingsState::new("x.yaml".to_owned(), a.clone(), a);
    state.draft_config.backend.serial_config.baudrate = 300;
    let plan = state.plan();
    assert!(plan.requires_reconnect());
    state.commit_apply(&plan);
    assert!(state.pending_reconnect);
    state.revert();
    let plan = state.plan();
    state.commit_apply(&plan);
    assert!(state.pending_reconnect);
    state.clear_reconnect_required();
    assert!(!state.pending_reconnect);
}

#[test]
fn live_repeat_policy_is_authoritative_over_live_control_updates() {
    let a = config();
    let mut state = SettingsState::new("x.yaml".to_owned(), a.clone(), a);
    assert!(!state.keyboard_repeat_enabled());
    state.set_keyboard_repeat_enabled(true);
    state.update_applied_from_live_control(|mut config| {
        config.terminal.config.no_print = true;
        config.terminal.config.keyboard_repeat = false;
        config
    });
    assert!(state.applied_config.terminal.config.no_print);
    assert!(state.applied_config.terminal.config.keyboard_repeat);
    assert!(!state.draft_dirty());
    assert!(state.unsaved());
}

#[test]
fn full_view_navigation_preserves_dirty_close_confirmation() {
    let base = config();
    let mut state = SettingsState::new("settings.yaml".into(), base.clone(), base);
    let mut current = AppView::Terminal;
    let mut settings = SettingsView::default();
    current.open_settings();
    settings.open(&mut state, ThemeKind::Light);
    assert_eq!(current, AppView::Settings);

    state.draft_config.terminal.config.columns += 1;
    assert_eq!(settings.request_close(state.draft_dirty()), None);
    assert!(settings.discard_confirmation_visible());
    assert_eq!(current, AppView::Settings);
    settings.keep_editing();
    assert!(!settings.discard_confirmation_visible());

    assert_eq!(settings.request_close(state.draft_dirty()), None);
    state.cancel();
    current.show_terminal();
    assert_eq!(current, AppView::Terminal);
    assert!(!state.draft_dirty());

    current.open_settings();
    settings.open(&mut state, ThemeKind::Light);
    assert!(!settings.discard_confirmation_visible());
    assert_eq!(settings.request_close(false), Some(SettingsAction::Close));
    current.show_terminal();
    assert_eq!(current, AppView::Terminal);
}

#[test]
fn settings_navigation_lists_every_page_and_status_follows_edits() {
    let listed: Vec<SettingsPage> = pages().iter().map(|(page, _)| *page).collect();
    assert_eq!(listed.len(), 8);
    assert_eq!(pages()[4], (SettingsPage::TapeReader, "Tape Reader"));
    let mut view = SettingsView::default();
    assert_eq!(view.page(), SettingsPage::General);
    view.select_page(SettingsPage::Ssh);
    assert_eq!(view.page(), SettingsPage::Ssh);
    assert_eq!(view.request_close(true), None);
    assert_eq!(view.discard_edits(), SettingsAction::Cancel);
    assert!(!view.discard_confirmation_visible());
    assert_eq!(status_text(true, false, false), "Unapplied edits");
    assert_eq!(status_text(false, false, true), "Applied, not saved");
    assert_eq!(status_text(false, false, false), "No unapplied changes");
}

#[test]
fn rejects_zero_terminal_columns() {
    let mut c = config();
    c.terminal.config.columns = 0;
    assert_eq!(
        c.validate(),
        Err(ValidationError::MustBePositive {
            field: "terminal.config.columns"
        })
    );
    assert_eq!(config().validate(), Ok(()));
}

#[test]
fn blank_serial_port_is_rejected_only_for_the_serial_backend() {
    let mut c = config();
    c.backend.serial_config.port = " \t".to_owned();
    assert_eq!(
        c.validate(),
        Err(ValidationError::MustNotBeEmpty {
            field: "backend.serial_config.port"
        })
    );
    c.backend.kind = BackendKind::Ssh;
    assert_eq!(c.validate(), Ok(()));
}

fn cli() -> ConfigCli {
    ConfigCli {
        config: "asr33_config.yaml".to_owned(),
        frontend: None,
        backend: None,
        term_mode: None,
        columns: None,
        rows: None,
        scrollback: None,
        throttle_rate: None,
        mute: false,
        baud: None,
        databits: None,
        parity: None,
        stopbits: None,
    }
}

#[test]
fn rust_keeps_file_and_effective_configuration_independent() {
    let mut overrides = cli();
    overrides.columns = Some(80);
    let loaded = LoadedConfig::from_parsed(config(), &overrides).expect("default config is valid");
    assert_eq!(loaded.file.terminal.config.columns, 72);
    assert_eq!(loaded.effective.terminal.config.columns, 80);
}

#[test]
fn embedded_default_config_accepts_cli_overrides_without_disk_file() {
    let mut overrides = cli();
    overrides.columns = Some(80);
    overrides.baud = Some(9600);
    overrides.mute = true;
    let loaded = LoadedConfig::from_parsed(config(), &overrides).expect("default config loads");
    assert_eq!(loaded.file.terminal.config.columns, 72);
    assert_eq!(loaded.effective.terminal.config.columns, 80);
    assert_eq!(loaded.effective.backend.serial_config.baudrate, 9600);
    assert!(matches!(
        loaded.effective.sound.config.mute_state,
        MuteState::Muted
    ));
}

#[test]
fn invalid_override_is_reported_and_file_is_untouched() {
    let mut overrides = cli();
    overrides.rows = Some(0);
    let file = config();
    assert!(LoadedConfig::from_parsed(file.clone(), &overrides).is_err());
    assert_eq!(file.terminal.config.rows, 24);
}

#[test]
fn default_yaml_maps_to_runtime_dimensions_rates_and_modes() {
    let config = config();
    let terminal = terminal_options(&config);
    assert_eq!(
        (terminal.columns, terminal.rows, terminal.scrollback),
        (72, 24, 200)
    );
    assert!(terminal.autowrap);
    let throttle = throttle_config(&config);
    assert_eq!((throttle.tx_rate_cps, throttle.rx_rate_cps), (10, 10));
    assert_eq!(
        configured_modes(&config),
        (CommunicationMode::Line, Pacing::Throttled)
    );
}

#[test]
fn startup_cr_is_not_encoded_or_buffered_as_an_initial_keyboard_command() {
    for parity in [
        KeyboardParityMode::Space,
        KeyboardParityMode::Mark,
        KeyboardParityMode::Even,
    ] {
        let mut config = config();
        config.terminal.config.send_cr_at_startup = true;
        config.terminal.config.keyboard_parity_mode = parity;
        let commands = initial_commands(
            &config,
            CommunicationMode::Local,
            Pacing::Unthrottled,
            false,
        );
        assert_eq!(
            commands,
            [
                ApplicationCommand::SetCommunicationMode(CommunicationMode::Local),
                ApplicationCommand::SetThrottleMode(Pacing::Unthrottled),
                ApplicationCommand::SetTxRate(10),
                ApplicationCommand::SetRxRate(10),
                ApplicationCommand::SetPrinterEnabled(false),
            ],
            "startup CR is now a session-scoped connection action, independent of {parity:?}"
        );
    }
}

#[test]
fn invalid_applied_config_is_refused_before_writing() {
    let a = config();
    let mut state = SettingsState::new("x.yaml".to_owned(), a.clone(), a);
    state.applied_config.terminal.config.columns = 0;
    let mut called = false;
    let result = state.save_applied(|_: &AppConfig| -> Result<(), String> {
        called = true;
        Ok(())
    });
    assert!(matches!(result, Err(SaveError::Invalid(ValidationError::MustBePositive { .. }))));
    assert!(!called);
    assert_eq!(state.disk_config.terminal.config.columns, 72);
}

#[test]
fn live_commands_change_pacing_only_when_it_differs() {
    let mut a = config();
    a.data_throttle.config.send_rate_cps = 30;
    a.data_throttle.config.receive_rate_cps = 20;
    assert_eq!(
        live_commands(&a, Pacing::Throttled),
        vec![ApplicationCommand::SetTxRate(30), ApplicationCommand::SetRxRate(20)]
    );
    assert_eq!(
        live_commands(&a, Pacing::Unthrottled),
        vec![
            ApplicationCommand::SetThrottleMode(Pacing::Throttled),
            ApplicationCommand::SetTxRate(30),
            ApplicationCommand::SetRxRate(20),
        ]
    );
}

#[test]
fn live_printer_command_only_when_the_printer_changes() {
    let mut a = config();
    assert_eq!(live_printer_command(&a, true), None);
    assert_eq!(
        live_printer_command(&a, false),
        Some(ApplicationCommand::SetPrinterEnabled(true))
    );
    a.terminal.config.no_print = true;
    assert_eq!(
        live_printer_command(&a, true),
        Some(ApplicationCommand::SetPrinterEnabled(false))
    );
}
