use asr33emu::app::PumpStatus;
use asr33emu::domain::config::{BitLabelBase, KeyboardParityMode};
use asr33emu::domain::time::Duration;
use asr33emu::ui::frame::{history_scroll_target, repaint_delay, stepped_position, TapeStepDirection};
use asr33emu::ui::keyboard::{encode_input, encode_normalized, KeyboardInput, KeyboardOptions};
use asr33emu::ui::layout::{PanelPlacement, PanelPresentation};
use asr33emu::ui::tape_view::{
    format_tape_numeric, head_colors, prepare_tape, tape_ascii, tape_columns, TapeColumn, TapeSourceOrder,
};
use asr33emu::ui::theme::ThemeKind;

fn options(parity: KeyboardParityMode) -> KeyboardOptions {
    KeyboardOptions {
        uppercase_only: false,
        parity,
    }
}

#[test]
fn maps_printable_and_control_input() {
    let options = options(KeyboardParityMode::Space);
    assert_eq!(
        encode_input(&KeyboardInput::Text("a~".into()), options).expect("ASCII encodes"),
        b"a~"
    );
    assert_eq!(
        encode_input(&KeyboardInput::Return, options).expect("CR encodes"),
        b"\r"
    );
    assert_eq!(
        encode_input(&KeyboardInput::Backspace, options).expect("BS encodes"),
        b"\x08"
    );
    assert_eq!(
        encode_input(&KeyboardInput::Tab, options).expect("tab encodes"),
        b"\t"
    );
    assert_eq!(
        encode_input(&KeyboardInput::Control('C'), options).expect("control encodes"),
        b"\x03"
    );
}

#[test]
fn applies_uppercase_and_all_parity_modes() {
    let mut settings = options(KeyboardParityMode::Space);
    settings.uppercase_only = true;
    assert_eq!(
        encode_input(&KeyboardInput::Text("a".into()), settings).expect("ASCII encodes"),
        b"A"
    );
    assert_eq!(
        encode_input(&KeyboardInput::Text("ß".into()), settings).expect("uppercase is ASCII"),
        b"S"
    );
    settings.parity = KeyboardParityMode::Mark;
    assert_eq!(
        encode_input(&KeyboardInput::Return, settings).expect("CR encodes"),
        b"\x8d",
        "interactive Return still uses keyboard parity"
    );
    assert_eq!(
        encode_input(&KeyboardInput::Text("A".into()), settings).expect("ASCII encodes"),
        b"\xc1"
    );
    settings.parity = KeyboardParityMode::Even;
    assert_eq!(
        encode_input(&KeyboardInput::Text("C".into()), settings).expect("ASCII encodes"),
        b"\xc3"
    );
    assert_eq!(
        encode_input(&KeyboardInput::Text("ß".into()), settings).expect("uppercase is ASCII"),
        b"SS"
    );
}

#[test]
fn return_is_authentic_cr_and_ctrl_j_is_line_feed_with_parity() {
    let space = options(KeyboardParityMode::Space);
    assert_eq!(
        encode_input(&KeyboardInput::Return, space).expect("CR"),
        b"\r"
    );
    assert_eq!(
        encode_input(&KeyboardInput::Control('J'), space).expect("LF"),
        b"\n"
    );
    let mark = options(KeyboardParityMode::Mark);
    assert_eq!(
        encode_input(&KeyboardInput::Return, mark).expect("marked CR"),
        b"\x8d"
    );
    assert_eq!(
        encode_input(&KeyboardInput::Control('J'), mark).expect("marked LF"),
        b"\x8a"
    );
}

#[test]
fn rejects_non_ascii_explicitly() {
    let error = encode_input(
        &KeyboardInput::Text("é".into()),
        options(KeyboardParityMode::Space),
    )
    .expect_err("legacy ASCII-only input is rejected");
    assert_eq!(error.message(), "keyboard character 'é' is not ASCII");
    assert!(
        encode_input(
            &KeyboardInput::Text("Aé".into()),
            options(KeyboardParityMode::Space),
        )
        .is_err(),
        "a mixed input returns no partial byte payload"
    );
}

#[test]
fn control_outside_the_control_block_sends_nothing_and_lower_case_letters_are_folded() {
    let space = options(KeyboardParityMode::Space);
    assert_eq!(
        encode_input(&KeyboardInput::Control('c'), space).expect("control encodes"),
        b"\x03"
    );
    assert_eq!(
        encode_input(&KeyboardInput::Control('1'), space).expect("ignored"),
        b""
    );
    let error = encode_input(&KeyboardInput::Text("xé".into()), space).expect_err("refused");
    assert_eq!(error.character(), 'é');
}

#[test]
fn placement_transitions_and_visibility_memory() {
    let mut panel = PanelPresentation::docked();
    panel.undock();
    assert_eq!(panel.placement(), PanelPlacement::Undocked);
    panel.dock();
    assert_eq!(panel.placement(), PanelPlacement::Docked);
    panel.hide_panel();
    panel.show();
    assert_eq!(panel.placement(), PanelPlacement::Docked);
    panel.undock();
    panel.hide_panel();
    panel.show();
    assert_eq!(panel.placement(), PanelPlacement::Undocked);
}

#[test]
fn placement_changes_do_not_touch_functional_device_state() {
    let mut panel = PanelPresentation::docked();
    let reader_position = 17;
    let punch_open = true;
    panel.undock();
    panel.hide_panel();
    panel.show();
    assert_eq!(reader_position, 17);
    assert!(punch_open);
    assert_eq!(panel.placement(), PanelPlacement::Undocked);
}

#[test]
fn hiding_twice_still_returns_to_the_last_visible_placement() {
    let mut panel = PanelPresentation::default();
    panel.undock();
    panel.hide_panel();
    panel.hide_panel();
    assert_eq!(panel.placement(), PanelPlacement::Hidden);
    panel.show();
    assert_eq!(panel.placement(), PanelPlacement::Undocked);
}

#[test]
fn numeric_ascii_rows_marker_and_limit_are_pure() {
    assert_eq!(format_tape_numeric(0x00), "0x00 0o000");
    assert_eq!(format_tape_numeric(0x15), "0x15 0o025");
    assert_eq!(format_tape_numeric(0x80), "0x80 0o200");
    assert_eq!(format_tape_numeric(0xff), "0xFF 0o377");
    assert_eq!(tape_ascii(0xc1, true), 'A');
    assert_eq!(tape_ascii(0xc1, false), '·');
    let bytes = [0, 1, 2, 3];
    let prepared = prepare_tape(&bytes, 2, false, TapeSourceOrder::OldestFirst, true);
    assert_eq!(prepared.rows.len(), 2);
    assert!(prepared.rows[0].marker);
    assert_eq!(
        prepared.rows.iter().map(|row| row.byte).collect::<Vec<_>>(),
        [3, 2]
    );
    assert_eq!(bytes, [0, 1, 2, 3]);
}

#[test]
fn punch_preview_is_bounded_and_newest_first() {
    let punch = prepare_tape(b"ABCDE", 3, false, TapeSourceOrder::OldestFirst, false);
    assert_eq!(
        punch.rows.iter().map(|row| row.byte).collect::<Vec<_>>(),
        b"EDC"
    );
    let appended = prepare_tape(b"ABCDEF", 3, false, TapeSourceOrder::OldestFirst, false);
    assert_eq!(
        appended.rows.iter().map(|row| row.byte).collect::<Vec<_>>(),
        b"FED"
    );
}

#[test]
fn newest_first_rows_keep_their_source_offsets_and_ascii() {
    let prepared = prepare_tape(b"A \x07", 5, false, TapeSourceOrder::NewestFirst, false);
    let rows: Vec<(usize, char, bool)> = prepared
        .rows
        .iter()
        .map(|row| (row.offset, row.ascii, row.marker))
        .collect();
    assert_eq!(rows, [(0, 'A', false), (1, ' ', false), (2, '·', false)]);
}

#[test]
fn physical_columns_match_legacy_and_have_one_sprocket() {
    assert_eq!(
        tape_columns(BitLabelBase::One),
        [
            TapeColumn::Data(1),
            TapeColumn::Data(2),
            TapeColumn::Data(3),
            TapeColumn::Sprocket,
            TapeColumn::Data(4),
            TapeColumn::Data(5),
            TapeColumn::Data(6),
            TapeColumn::Data(7),
            TapeColumn::Data(8)
        ]
    );
    assert_eq!(
        tape_columns(BitLabelBase::Zero),
        [
            TapeColumn::Data(0),
            TapeColumn::Data(1),
            TapeColumn::Data(2),
            TapeColumn::Sprocket,
            TapeColumn::Data(3),
            TapeColumn::Data(4),
            TapeColumn::Data(5),
            TapeColumn::Data(6),
            TapeColumn::Data(7)
        ]
    );
    assert_eq!(
        tape_columns(BitLabelBase::One)
            .iter()
            .filter(|column| matches!(column, TapeColumn::Data(_)))
            .count(),
        8
    );
}

#[test]
fn maps_every_runtime_status_to_non_blocking_repaint_policy() {
    assert_eq!(
        repaint_delay(PumpStatus::Wait(Duration::from_millis(7))),
        Some(Duration::from_millis(7))
    );
    assert_eq!(
        repaint_delay(PumpStatus::WorkRemaining),
        Some(Duration::zero())
    );
    assert_eq!(
        repaint_delay(PumpStatus::Idle),
        Some(Duration::from_millis(16))
    );
    assert_eq!(
        repaint_delay(PumpStatus::Backpressured),
        Some(Duration::from_millis(10))
    );
}

#[test]
fn tape_step_buttons_move_one_byte_and_clamp_to_loaded_tape() {
    assert_eq!(stepped_position(0, 6, TapeStepDirection::TowardStart), 0);
    assert_eq!(stepped_position(4, 6, TapeStepDirection::TowardStart), 3);
    assert_eq!(stepped_position(4, 6, TapeStepDirection::TowardEnd), 5);
    assert_eq!(stepped_position(6, 6, TapeStepDirection::TowardEnd), 6);
}

#[test]
fn mouse_history_scroll_enters_and_leaves_history_view() {
    assert_eq!(history_scroll_target(None, 20, true), Some(17));
    assert_eq!(history_scroll_target(Some(17), 20, false), None);
}

#[test]
fn light_and_dark_palettes_are_complete_and_distinct() {
    let light = ThemeKind::Light.palette();
    let dark = ThemeKind::Dark.palette();
    assert_ne!(light, dark);
    assert_ne!(light.paper, light.text);
    assert_ne!(dark.paper, dark.text);
    assert_ne!(light.tape_hole, light.tape_ghost);
    assert_ne!(dark.tape_hole, dark.tape_ghost);
    assert_eq!(ThemeKind::default(), ThemeKind::Light);
}

#[test]
fn head_foreground_contrasts_with_background_in_both_themes() {
    for theme in [ThemeKind::Light, ThemeKind::Dark] {
        let (background, foreground) = head_colors(theme.palette());
        assert_ne!(background, foreground);
    }
}

#[test]
fn normalized_characters_encode_only_when_all_ascii() {
    assert_eq!(
        encode_normalized('a', &vec!['A'], KeyboardParityMode::Space),
        Ok(vec![0x41])
    );
    assert_eq!(
        encode_normalized('a', &vec!['A', 'C'], KeyboardParityMode::Even),
        Ok(vec![0x41, 0xc3])
    );
    let refused = encode_normalized('\u{df}', &vec!['S', '\u{df}'], KeyboardParityMode::Mark);
    assert_eq!(refused.map_err(|e| e.character()), Err('\u{df}'));
}
