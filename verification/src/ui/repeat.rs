//! The ASR-33 keyboard repeat policy.
//!
//! Host typematic is never forwarded to the terminal: a host can generate repeats
//! much faster than a 10 cps teletype consumes them, which would keep the machine
//! typing after the key is released. The Model 33's REPT key instead repeats the
//! held character at the machine cadence; the Repeat control latches that
//! function. One held key is tracked and paced repeat events are made for it, with
//! no burst and no catch-up after a late frame. Releasing the key cancels further
//! repeats at once.

use vstd::prelude::*;

verus! {

/// Nanoseconds from a key press to its first repeat: one character cycle.
pub const INITIAL_REPEAT_DELAY_NANOS: u64 = 100_000_000;

/// Nanoseconds between repeats: ten characters per second.
pub const REPEAT_INTERVAL_NANOS: u64 = 100_000_000;

/// The keys the policy tells apart; any other key keeps the host's own code.
#[derive(Clone, Copy, Debug, PartialEq, Eq, Structural)]
pub enum HostKey {
    Enter,
    Backspace,
    Tab,
    PageUp,
    PageDown,
    Home,
    End,
    /// A letter key, by its upper-case letter.
    Letter(char),
    /// A function key, numbered from one.
    Function(u8),
    Other(u32),
}

#[derive(Clone, Copy, Debug, PartialEq, Eq, Structural)]
pub struct KeyModifiers {
    pub alt: bool,
    pub ctrl: bool,
    pub shift: bool,
    pub mac_cmd: bool,
    pub command: bool,
}

/// A host input event, as far as the repeat policy reads it. `Other` stands for
/// an event passed through untouched, by its position in the host's list.
#[derive(Clone, Debug, PartialEq, Eq)]
pub enum InputEvent {
    Key { key: HostKey, pressed: bool, repeat: bool, modifiers: KeyModifiers },
    Text(String),
    Other(usize),
}

/// What a held key repeats: the text it typed, or the key itself for keys that
/// reach the terminal through the key route.
#[derive(Clone, Debug, PartialEq, Eq)]
pub enum RepeatPayload {
    Text(String),
    Key { key: HostKey, modifiers: KeyModifiers },
}

#[derive(Clone, Debug, PartialEq, Eq)]
pub struct HeldKey {
    pub key: HostKey,
    pub payload: Option<RepeatPayload>,
    /// When the next repeat is due, in nanoseconds of the host clock.
    pub next_repeat_at: u64,
}

/// F1 to F9 drive the application (tape panels, modes) and never repeat.
pub open spec fn is_shortcut(key: HostKey) -> bool {
    key matches HostKey::Function(n) && 1 <= n <= 9
}

pub fn is_application_shortcut(key: HostKey) -> (shortcut: bool)
    ensures
        shortcut == is_shortcut(key),
{
    match key {
        HostKey::Function(n) => 1 <= n && n <= 9,
        _ => false,
    }
}

/// Control chords and Return, Backspace and Tab repeat through the key route;
/// other keys repeat the text they typed.
pub open spec fn key_route(key: HostKey, modifiers: KeyModifiers) -> Option<RepeatPayload> {
    if modifiers.ctrl || key == HostKey::Enter || key == HostKey::Backspace || key
        == HostKey::Tab {
        Some(RepeatPayload::Key { key, modifiers })
    } else {
        None
    }
}

pub fn key_route_payload(key: HostKey, modifiers: KeyModifiers) -> (payload: Option<RepeatPayload>)
    ensures
        payload == key_route(key, modifiers),
{
    let routed = match key {
        HostKey::Enter => true,
        HostKey::Backspace => true,
        HostKey::Tab => true,
        _ => false,
    };
    if modifiers.ctrl || routed {
        Some(RepeatPayload::Key { key, modifiers })
    } else {
        None
    }
}

pub open spec fn add_nanos(now: u64, delay: u64) -> u64 {
    if now + delay > u64::MAX {
        u64::MAX
    } else {
        (now + delay) as u64
    }
}

/// The filter's memory between events: whether the next text event belongs to a
/// discarded host repeat, and the held key.
pub struct FilterState {
    pub suppress_text: bool,
    pub held: Option<HeldKey>,
}

/// One event through the filter: the new memory and what is forwarded.
pub open spec fn filter_step(st: FilterState, event: InputEvent, enabled: bool, now: u64) -> (
    FilterState,
    Seq<InputEvent>,
) {
    match event {
        InputEvent::Key { key, pressed, repeat, modifiers } => if pressed && repeat {
            (FilterState { suppress_text: true, ..st }, Seq::empty())
        } else if pressed {
            let held = if enabled && !is_shortcut(key) {
                Some(
                    HeldKey {
                        key,
                        payload: key_route(key, modifiers),
                        next_repeat_at: add_nanos(now, INITIAL_REPEAT_DELAY_NANOS),
                    },
                )
            } else if !enabled {
                None
            } else {
                st.held
            };
            (
                FilterState { suppress_text: false, held },
                seq![InputEvent::Key { key, pressed: true, repeat: false, modifiers }],
            )
        } else {
            let held = match st.held {
                Some(h) => if h.key == key {
                    None
                } else {
                    st.held
                },
                None => None,
            };
            (FilterState { suppress_text: false, held }, seq![event])
        },
        InputEvent::Text(text) => if st.suppress_text {
            (FilterState { suppress_text: false, ..st }, Seq::empty())
        } else {
            let held = match st.held {
                Some(h) => if enabled && h.payload is None {
                    Some(HeldKey { payload: Some(RepeatPayload::Text(text)), ..h })
                } else {
                    st.held
                },
                None => None,
            };
            (FilterState { suppress_text: false, held }, seq![event])
        },
        InputEvent::Other(_) => (FilterState { suppress_text: false, ..st }, seq![event]),
    }
}

/// A whole frame's events through the filter, in order.
pub open spec fn filter_run(events: Seq<InputEvent>, held: Option<HeldKey>, enabled: bool, now: u64) -> (
    FilterState,
    Seq<InputEvent>,
)
    decreases events.len(),
{
    if events.len() == 0 {
        (FilterState { suppress_text: false, held }, Seq::empty())
    } else {
        let (st, out) = filter_run(events.drop_last(), held, enabled, now);
        let (next, more) = filter_step(st, events.last(), enabled, now);
        (next, out + more)
    }
}

pub(crate) fn copy_text(text: &String) -> (copy: String)
    ensures
        copy == *text,
{
    text.clone()
}

fn copy_held(held: &Option<HeldKey>) -> (copy: Option<HeldKey>)
    ensures
        copy == *held,
{
    match held {
        None => None,
        Some(h) => Some(
            HeldKey {
                key: h.key,
                payload: match &h.payload {
                    None => None,
                    Some(RepeatPayload::Text(t)) => Some(RepeatPayload::Text(copy_text(t))),
                    Some(RepeatPayload::Key { key, modifiers }) => Some(
                        RepeatPayload::Key { key: *key, modifiers: *modifiers },
                    ),
                },
                next_repeat_at: h.next_repeat_at,
            },
        ),
    }
}

/// Drop host typematic and track the held key. Text typed while a key without a
/// key route is held becomes that key's repeat payload.
pub fn filter_and_track_events(
    events: &mut Vec<InputEvent>,
    repeat_enabled: bool,
    now: u64,
    held: &mut Option<HeldKey>,
)
    ensures
        ({
            let (st, out) = filter_run(old(events)@, *old(held), repeat_enabled, now);
            &&& final(events)@ == out
            &&& *final(held) == st.held
        }),
{
    let ghost original = events@;
    let ghost start = *held;
    let mut filtered: Vec<InputEvent> = Vec::new();
    let mut suppress_following_text = false;
    let n = events.len();
    let mut i: usize = 0;
    while i < n
        invariant
            n == original.len(),
            events@ == original,
            i <= n,
            ({
                let (st, out) = filter_run(original.take(i as int), start, repeat_enabled, now);
                &&& filtered@ == out
                &&& *held == st.held
                &&& suppress_following_text == st.suppress_text
            }),
        decreases n - i,
    {
        proof {
            assert(original.take(i + 1).drop_last() =~= original.take(i as int));
        }
        let ghost before = filtered@;
        match &events[i] {
            InputEvent::Key { key, pressed, repeat, modifiers } => {
                let key = *key;
                let modifiers = *modifiers;
                if *pressed && *repeat {
                    suppress_following_text = true;
                } else if *pressed {
                    suppress_following_text = false;
                    if repeat_enabled && !is_application_shortcut(key) {
                        *held = Some(
                            HeldKey {
                                key,
                                payload: key_route_payload(key, modifiers),
                                next_repeat_at: now.saturating_add(INITIAL_REPEAT_DELAY_NANOS),
                            },
                        );
                    } else if !repeat_enabled {
                        *held = None;
                    }
                    filtered.push(InputEvent::Key { key, pressed: true, repeat: false, modifiers });
                } else {
                    suppress_following_text = false;
                    let releases = match held {
                        Some(h) => h.key == key,
                        None => false,
                    };
                    if releases {
                        *held = None;
                    }
                    filtered.push(
                        InputEvent::Key { key, pressed: false, repeat: *repeat, modifiers },
                    );
                }
            },
            InputEvent::Text(text) => {
                if suppress_following_text {
                    suppress_following_text = false;
                } else {
                    suppress_following_text = false;
                    if repeat_enabled {
                        let arm = match held {
                            Some(h) => h.payload.is_none(),
                            None => false,
                        };
                        if arm {
                            let current = copy_held(held);
                            match current {
                                Some(h) => {
                                    *held = Some(
                                        HeldKey {
                                            key: h.key,
                                            payload: Some(RepeatPayload::Text(copy_text(text))),
                                            next_repeat_at: h.next_repeat_at,
                                        },
                                    );
                                },
                                None => {},
                            }
                        }
                    }
                    filtered.push(InputEvent::Text(copy_text(text)));
                }
            },
            InputEvent::Other(index) => {
                suppress_following_text = false;
                filtered.push(InputEvent::Other(*index));
            },
        }
        proof {
            assert(filtered@ =~= before + filter_step(
                filter_run(original.take(i as int), start, repeat_enabled, now).0,
                original[i as int],
                repeat_enabled,
                now,
            ).1);
        }
        i += 1;
    }
    proof {
        assert(original.take(n as int) =~= original);
    }
    *events = filtered;
}

/// The event a held key's payload repeats as.
pub open spec fn payload_event(payload: RepeatPayload) -> InputEvent {
    match payload {
        RepeatPayload::Text(text) => InputEvent::Text(text),
        RepeatPayload::Key { key, modifiers } => InputEvent::Key {
            key,
            pressed: true,
            repeat: true,
            modifiers,
        },
    }
}

/// The paced repeat for this frame, and how long until the next frame should run.
pub struct RepeatDecision {
    pub event: Option<InputEvent>,
    pub repaint_after: Option<u64>,
}

/// The repeat the held key makes at `now`: at most one per frame, due times
/// restarting from `now` so a late frame never catches up. With repeat off the
/// held key is forgotten.
pub fn next_repeat(held: &mut Option<HeldKey>, repeat_enabled: bool, now: u64) -> (decision:
    RepeatDecision)
    ensures
        !repeat_enabled ==> *final(held) == None::<HeldKey> && decision.event is None
            && decision.repaint_after is None,
        repeat_enabled ==> match *old(held) {
            None => *final(held) == None::<HeldKey> && decision.event is None
                && decision.repaint_after is None,
            Some(h) => match h.payload {
                None => *final(held) == *old(held) && decision.event is None
                    && decision.repaint_after is None,
                Some(p) => {
                    let due = now >= h.next_repeat_at;
                    let next_at = if due {
                        add_nanos(now, REPEAT_INTERVAL_NANOS)
                    } else {
                        h.next_repeat_at
                    };
                    &&& *final(held) == Some(HeldKey { next_repeat_at: next_at, ..h })
                    &&& decision.event == (if due {
                        Some(payload_event(p))
                    } else {
                        None::<InputEvent>
                    })
                    &&& decision.repaint_after == Some(
                        (if next_at >= now {
                            next_at - now
                        } else {
                            0
                        }) as u64,
                    )
                },
            },
        },
{
    if !repeat_enabled {
        *held = None;
        return RepeatDecision { event: None, repaint_after: None };
    }
    let current = copy_held(held);
    match current {
        None => RepeatDecision { event: None, repaint_after: None },
        Some(h) => match h.payload {
            None => RepeatDecision { event: None, repaint_after: None },
            Some(payload) => {
                let due = now >= h.next_repeat_at;
                let next_at = if due {
                    now.saturating_add(REPEAT_INTERVAL_NANOS)
                } else {
                    h.next_repeat_at
                };
                let event = if due {
                    Some(
                        match &payload {
                            RepeatPayload::Text(text) => InputEvent::Text(copy_text(text)),
                            RepeatPayload::Key { key, modifiers } => InputEvent::Key {
                                key: *key,
                                pressed: true,
                                repeat: true,
                                modifiers: *modifiers,
                            },
                        },
                    )
                } else {
                    None
                };
                *held = Some(HeldKey { key: h.key, payload: Some(payload), next_repeat_at: next_at });
                let delay = if next_at >= now {
                    next_at - now
                } else {
                    0
                };
                RepeatDecision { event, repaint_after: Some(delay) }
            },
        },
    }
}

/// Host repeats are never forwarded: a pressed key marked as a repeat, and the
/// text that follows it, disappear whatever the Repeat setting.
pub proof fn lemma_host_typematic_is_dropped(
    st: FilterState,
    key: HostKey,
    modifiers: KeyModifiers,
    text: String,
    enabled: bool,
    now: u64,
)
    ensures
        ({
            let (mid, first) = filter_step(
                st,
                InputEvent::Key { key, pressed: true, repeat: true, modifiers },
                enabled,
                now,
            );
            let (_, second) = filter_step(mid, InputEvent::Text(text), enabled, now);
            first.len() == 0 && second.len() == 0
        }),
{
}

/// Releasing the held key cancels its repeats immediately.
pub proof fn lemma_release_cancels_repeat(
    st: FilterState,
    key: HostKey,
    repeat: bool,
    modifiers: KeyModifiers,
    enabled: bool,
    now: u64,
)
    requires
        st.held matches Some(h) && h.key == key,
    ensures
        filter_step(
            st,
            InputEvent::Key { key, pressed: false, repeat, modifiers },
            enabled,
            now,
        ).0.held is None,
{
}

} // verus!
