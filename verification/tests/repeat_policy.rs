use asr33emu::ui::repeat::{
    filter_and_track_events, next_repeat, HeldKey, HostKey, InputEvent, KeyModifiers,
    RepeatPayload, INITIAL_REPEAT_DELAY_NANOS, REPEAT_INTERVAL_NANOS,
};

const SECOND: u64 = 1_000_000_000;

fn no_modifiers() -> KeyModifiers {
    KeyModifiers {
        alt: false,
        ctrl: false,
        shift: false,
        mac_cmd: false,
        command: false,
    }
}

fn key(key: HostKey, pressed: bool, repeat: bool) -> InputEvent {
    InputEvent::Key {
        key,
        pressed,
        repeat,
        modifiers: no_modifiers(),
    }
}

const KEY_A: HostKey = HostKey::Letter('A');

#[test]
fn host_typematic_is_never_forwarded_even_when_asr_repeat_is_enabled() {
    for enabled in [false, true] {
        let mut held = None;
        let mut events = vec![key(KEY_A, true, true), InputEvent::Text("a".to_owned())];
        filter_and_track_events(&mut events, enabled, SECOND, &mut held);
        assert!(events.is_empty());
    }
}

#[test]
fn printable_key_is_armed_from_initial_key_plus_text() {
    let mut held = None;
    let mut events = vec![key(KEY_A, true, false), InputEvent::Text("a".to_owned())];
    filter_and_track_events(&mut events, true, 2 * SECOND, &mut held);
    assert_eq!(events.len(), 2);
    let current = held.expect("held key");
    assert_eq!(current.key, KEY_A);
    assert!(matches!(current.payload, Some(RepeatPayload::Text(ref text)) if text == "a"));
    assert_eq!(current.next_repeat_at, 2 * SECOND + INITIAL_REPEAT_DELAY_NANOS);
}

#[test]
fn release_cancels_future_repeat_immediately() {
    let mut held = None;
    let mut press = vec![key(KEY_A, true, false), InputEvent::Text("a".to_owned())];
    filter_and_track_events(&mut press, true, 3 * SECOND, &mut held);
    assert!(held.is_some());

    let mut release = vec![key(KEY_A, false, false)];
    filter_and_track_events(&mut release, true, 3 * SECOND + 50_000_000, &mut held);
    assert!(held.is_none());
    assert_eq!(release.len(), 1);
}

#[test]
fn enter_can_repeat_through_key_route_without_text_event() {
    let mut held = None;
    let mut events = vec![key(HostKey::Enter, true, false)];
    filter_and_track_events(&mut events, true, 4 * SECOND, &mut held);
    assert!(matches!(
        held.and_then(|held| held.payload),
        Some(RepeatPayload::Key {
            key: HostKey::Enter,
            ..
        })
    ));
}

#[test]
fn application_shortcuts_never_arm_terminal_repeat() {
    for shortcut in 5..=9u8 {
        let mut held = None;
        let mut events = vec![key(HostKey::Function(shortcut), true, false)];
        filter_and_track_events(&mut events, true, 5 * SECOND, &mut held);
        assert!(held.is_none(), "F{shortcut} armed repeat unexpectedly");
    }
}

#[test]
fn paced_repeats_never_catch_up_and_stop_when_repeat_is_off() {
    let mut held = Some(HeldKey {
        key: KEY_A,
        payload: Some(RepeatPayload::Text("a".to_owned())),
        next_repeat_at: SECOND,
    });
    let early = next_repeat(&mut held, true, SECOND - 1);
    assert_eq!(early.event, None);
    assert_eq!(early.repaint_after, Some(1));
    let late = next_repeat(&mut held, true, 3 * SECOND);
    assert_eq!(late.event, Some(InputEvent::Text("a".to_owned())));
    assert_eq!(late.repaint_after, Some(REPEAT_INTERVAL_NANOS));
    assert_eq!(
        held.as_ref().map(|held| held.next_repeat_at),
        Some(3 * SECOND + REPEAT_INTERVAL_NANOS)
    );
    let off = next_repeat(&mut held, false, 4 * SECOND);
    assert_eq!(off.event, None);
    assert!(held.is_none());
}

#[test]
fn other_events_pass_through_in_order() {
    let mut held = None;
    let mut events = vec![InputEvent::Other(0), key(KEY_A, true, false), InputEvent::Other(2)];
    filter_and_track_events(&mut events, false, SECOND, &mut held);
    assert_eq!(
        events,
        [InputEvent::Other(0), key(KEY_A, true, false), InputEvent::Other(2)]
    );
    assert!(held.is_none());
}
