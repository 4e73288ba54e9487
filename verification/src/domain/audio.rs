//! Deterministic ASR-33 mechanical-audio cues.
//!
//! Terminal and user activity select one continuous loop and feed a bounded
//! queue of mechanical effects. Gains and fades are rendered at the audio edge;
//! this module decides which sounds play and when the machine falls back to its
//! idle hum.

use vstd::prelude::*;
use std::collections::VecDeque;
use crate::domain::config::LidState;
use crate::domain::terminal::CharacterEvent;
use crate::domain::time::{Duration, NANOS_PER_MILLI};

verus! {

/// Effects waiting at most; further requests are dropped.
pub const MAX_PENDING_EFFECTS: usize = 4;

/// The post-character column whose arrival rings the column bell.
pub const COLUMN_BELL_COLUMN: usize = 62;

/// Milliseconds without activity after which printing falls back to the hum.
pub const INACTIVITY_TIMEOUT_MILLIS: u64 = 110;

/// Milliseconds within which a repeated key strike is merged into the previous one.
pub const KEYPRESS_DEBOUNCE_MILLIS: u64 = 80;

#[derive(Clone, Copy, Debug, Eq, Hash, PartialEq, Structural)]
pub enum ContinuousSound {
    PrintChars,
    PrintSpaces,
    Hum,
}

#[derive(Clone, Copy, Debug, Eq, Hash, PartialEq, Structural)]
pub enum EffectSound {
    Key,
    Bell,
    CarriageReturn,
    Platen,
    MotorOn,
    MotorOff,
    Lid,
}

/// How long each effect is allowed to play, in milliseconds.
pub open spec fn play_time_millis(sound: EffectSound) -> u64 {
    match sound {
        EffectSound::Key => 100,
        EffectSound::Bell => 500,
        EffectSound::CarriageReturn => 150,
        EffectSound::Platen => 100,
        EffectSound::MotorOn => 1500,
        EffectSound::MotorOff => 400,
        EffectSound::Lid => 250,
    }
}

impl EffectSound {
    pub fn legacy_play_time(self) -> (time: Duration)
        ensures
            time@ == play_time_millis(self) * NANOS_PER_MILLI,
            time == request_for(self).max_play_time,
    {
        let millis: u64 = match self {
            EffectSound::Key => 100,
            EffectSound::Bell => 500,
            EffectSound::CarriageReturn => 150,
            EffectSound::Platen => 100,
            EffectSound::MotorOn => 1500,
            EffectSound::MotorOff => 400,
            EffectSound::Lid => 250,
        };
        let time = Duration::from_millis(millis);
        proof {
            Duration::lemma_of_nanos((play_time_millis(self) * NANOS_PER_MILLI) as nat);
            Duration::lemma_view_injective(time, request_for(self).max_play_time);
        }
        time
    }
}

#[derive(Clone, Copy, Debug, Eq, PartialEq, Structural)]
pub struct EffectRequest {
    pub sound: EffectSound,
    pub max_play_time: Duration,
}

/// The request queued for `sound`.
pub open spec fn request_for(sound: EffectSound) -> EffectRequest {
    EffectRequest {
        sound,
        max_play_time: Duration::of_nanos((play_time_millis(sound) * NANOS_PER_MILLI) as nat),
    }
}

/// `queue` with `sound` appended, unless it is full.
pub open spec fn pushed(queue: Seq<EffectRequest>, sound: EffectSound) -> Seq<EffectRequest> {
    if queue.len() < MAX_PENDING_EFFECTS {
        queue.push(request_for(sound))
    } else {
        queue
    }
}

/// The continuous loop a printed character selects.
pub open spec fn character_loop(c: char) -> ContinuousSound {
    if c <= ' ' || c > '~' {
        ContinuousSound::PrintSpaces
    } else {
        ContinuousSound::PrintChars
    }
}

/// Whether a printed character plays an effect instead of selecting a loop.
pub open spec fn character_effect(c: char) -> Option<EffectSound> {
    if c == '\r' {
        Some(EffectSound::CarriageReturn)
    } else if c == '\n' {
        Some(EffectSound::Platen)
    } else if c == '\u{7}' {
        Some(EffectSound::Bell)
    } else {
        None
    }
}

pub open spec fn has_key_effect(queue: Seq<EffectRequest>) -> bool {
    exists|i: int| 0 <= i < queue.len() && (#[trigger] queue[i]).sound == EffectSound::Key
}

/// The discrete audio state, as plain values.
pub struct CueView {
    pub lid: LidState,
    pub muted: bool,
    pub continuous: Option<ContinuousSound>,
    pub tape_reader_running: bool,
    pub last_event: nat,
    pub last_keypress: Option<nat>,
    pub effects: Seq<EffectRequest>,
}

impl CueView {
    pub open spec fn wf(self) -> bool {
        self.effects.len() <= MAX_PENDING_EFFECTS
    }
}

/// Which sounds the machine is making, decided from activity and time.
pub struct AudioCues {
    lid: LidState,
    muted: bool,
    continuous: Option<ContinuousSound>,
    tape_reader_running: bool,
    last_event_time: Duration,
    last_keypress_time: Option<Duration>,
    effects: VecDeque<EffectRequest>,
}

impl View for AudioCues {
    type V = CueView;

    closed spec fn view(&self) -> CueView {
        CueView {
            lid: self.lid,
            muted: self.muted,
            continuous: self.continuous,
            tape_reader_running: self.tape_reader_running,
            last_event: self.last_event_time@,
            last_keypress: match self.last_keypress_time {
                Some(t) => Some(t@),
                None => None,
            },
            effects: self.effects@,
        }
    }
}

impl AudioCues {
    pub fn new(lid: LidState, muted: bool, now: Duration) -> (cues: Self)
        ensures
            cues@ == (CueView {
                lid,
                muted,
                continuous: None,
                tape_reader_running: false,
                last_event: now@,
                last_keypress: None,
                effects: Seq::empty(),
            }),
    {
        AudioCues {
            lid,
            muted,
            continuous: None,
            tape_reader_running: false,
            last_event_time: now,
            last_keypress_time: None,
            effects: VecDeque::new(),
        }
    }

    fn push_effect(&mut self, sound: EffectSound)
        requires
            old(self)@.wf(),
        ensures
            final(self)@ == (CueView { effects: pushed(old(self)@.effects, sound), ..old(self)@ }),
            final(self)@.wf(),
    {
        if self.effects.len() < MAX_PENDING_EFFECTS {
            self.effects.push_back(EffectRequest { sound, max_play_time: sound.legacy_play_time() });
        }
    }

    fn enqueue_effect(&mut self, sound: EffectSound, now: Duration)
        requires
            old(self)@.wf(),
        ensures
            final(self)@ == (CueView {
                effects: pushed(old(self)@.effects, sound),
                last_event: now@,
                ..old(self)@
            }),
            final(self)@.wf(),
    {
        self.last_event_time = now;
        self.push_effect(sound);
    }

    /// The motor starts.
    pub fn start(&mut self, now: Duration)
        requires
            old(self)@.wf(),
        ensures
            final(self)@ == (CueView {
                effects: pushed(old(self)@.effects, EffectSound::MotorOn),
                last_event: now@,
                ..old(self)@
            }),
            final(self)@.wf(),
    {
        self.enqueue_effect(EffectSound::MotorOn, now);
    }

    /// Pending effects are dropped and the motor stops.
    pub fn prepare_shutdown(&mut self, now: Duration)
        requires
            old(self)@.wf(),
        ensures
            final(self)@ == (CueView {
                effects: seq![request_for(EffectSound::MotorOff)],
                last_event: now@,
                ..old(self)@
            }),
            final(self)@.wf(),
    {
        self.effects.clear();
        self.enqueue_effect(EffectSound::MotorOff, now);
    }

    /// A key strike. Strikes within the debounce interval of the previous one are
    /// ignored, and a strike already waiting absorbs a new one.
    pub fn keypress(&mut self, now: Duration)
        requires
            old(self)@.wf(),
        ensures
            final(self)@.wf(),
            ({
                let before = old(self)@;
                let debounced = before.last_keypress matches Some(last) && (if now@ >= last {
                    now@ - last
                } else {
                    0
                }) < KEYPRESS_DEBOUNCE_MILLIS * NANOS_PER_MILLI;
                if debounced {
                    final(self)@ == before
                } else {
                    final(self)@ == (CueView {
                        last_keypress: Some(now@),
                        last_event: now@,
                        effects: if has_key_effect(before.effects) {
                            before.effects
                        } else {
                            pushed(before.effects, EffectSound::Key)
                        },
                        ..before
                    })
                }
            }),
    {
        match self.last_keypress_time {
            Some(last) => {
                if now.saturating_sub(last).is_before(&Duration::from_millis(KEYPRESS_DEBOUNCE_MILLIS)) {
                    return;
                }
            },
            None => {},
        }
        self.last_keypress_time = Some(now);
        self.last_event_time = now;
        let mut pending_key = false;
        let mut i: usize = 0;
        while i < self.effects.len()
            invariant
                i <= self@.effects.len(),
                pending_key == exists|j: int| 0 <= j < i && (#[trigger] self@.effects[j]).sound
                    == EffectSound::Key,
            decreases self@.effects.len() - i,
        {
            if self.effects[i].sound == EffectSound::Key {
                pending_key = true;
            }
            i += 1;
        }
        if !pending_key {
            self.push_effect(EffectSound::Key);
        }
    }

    /// A character the printer handled. Returns the loop it switched to, if it
    /// switched.
    pub fn process_character(&mut self, event: CharacterEvent, now: Duration) -> (switched: Option<
        ContinuousSound,
    >)
        requires
            old(self)@.wf(),
        ensures
            final(self)@.wf(),
            ({
                let before = old(self)@;
                let effects = match character_effect(event.character) {
                    Some(sound) => pushed(before.effects, sound),
                    None => before.effects,
                };
                let selected = match character_effect(event.character) {
                    Some(_) => before.continuous,
                    None => Some(character_loop(event.character)),
                };
                &&& final(self)@ == (CueView {
                    last_event: now@,
                    continuous: selected,
                    effects: if event.column == COLUMN_BELL_COLUMN {
                        pushed(effects, EffectSound::Bell)
                    } else {
                        effects
                    },
                    ..before
                })
                &&& switched == (if selected != before.continuous {
                    selected
                } else {
                    None
                })
            }),
    {
        self.last_event_time = now;
        let c = event.character;
        let switched = if c == '\r' {
            self.push_effect(EffectSound::CarriageReturn);
            None
        } else if c == '\n' {
            self.push_effect(EffectSound::Platen);
            None
        } else if c == '\u{7}' {
            self.push_effect(EffectSound::Bell);
            None
        } else if c <= ' ' || c > '~' {
            self.transition_to(ContinuousSound::PrintSpaces)
        } else {
            self.transition_to(ContinuousSound::PrintChars)
        };
        if event.column == COLUMN_BELL_COLUMN {
            self.push_effect(EffectSound::Bell);
        }
        switched
    }

    fn transition_to(&mut self, sound: ContinuousSound) -> (switched: Option<ContinuousSound>)
        ensures
            final(self)@ == (CueView { continuous: Some(sound), ..old(self)@ }),
            switched == (if old(self)@.continuous != Some(sound) {
                Some(sound)
            } else {
                None
            }),
    {
        match self.continuous {
            Some(current) => {
                if current == sound {
                    return None;
                }
            },
            None => {},
        }
        self.continuous = Some(sound);
        Some(sound)
    }

    pub fn set_tape_reader_running(&mut self, running: bool)
        ensures
            final(self)@ == (CueView { tape_reader_running: running, ..old(self)@ }),
    {
        self.tape_reader_running = running;
    }

    /// Returns whether the mute state changed.
    pub fn set_muted(&mut self, muted: bool) -> (changed: bool)
        ensures
            changed == (old(self)@.muted != muted),
            final(self)@ == (CueView { muted, ..old(self)@ }),
    {
        if self.muted == muted {
            return false;
        }
        self.muted = muted;
        true
    }

    /// Opening or closing the lid plays the lid effect; setting the same state is
    /// silent. Returns whether the lid moved.
    pub fn set_lid(&mut self, lid: LidState, now: Duration) -> (changed: bool)
        requires
            old(self)@.wf(),
        ensures
            final(self)@.wf(),
            changed == (old(self)@.lid != lid),
            changed ==> final(self)@ == (CueView {
                lid,
                last_event: now@,
                effects: pushed(old(self)@.effects, EffectSound::Lid),
                ..old(self)@
            }),
            !changed ==> final(self)@ == old(self)@,
    {
        if self.lid == lid {
            return false;
        }
        self.lid = lid;
        self.enqueue_effect(EffectSound::Lid, now);
        true
    }

    /// After the inactivity timeout the machine falls back to the hum. Returns the
    /// loop it switched to, if it switched.
    pub fn tick(&mut self, now: Duration) -> (switched: Option<ContinuousSound>)
        ensures
            ({
                let before = old(self)@;
                let idle = (if now@ >= before.last_event {
                    now@ - before.last_event
                } else {
                    0
                }) >= INACTIVITY_TIMEOUT_MILLIS * NANOS_PER_MILLI;
                if before.continuous != Some(ContinuousSound::Hum) && idle {
                    &&& final(self)@ == (CueView {
                        continuous: Some(ContinuousSound::Hum),
                        ..before
                    })
                    &&& switched == Some(ContinuousSound::Hum)
                } else {
                    &&& final(self)@ == before
                    &&& switched is None
                }
            }),
    {
        let humming = match self.continuous {
            Some(ContinuousSound::Hum) => true,
            _ => false,
        };
        if !humming && !now.saturating_sub(self.last_event_time).is_before(
            &Duration::from_millis(INACTIVITY_TIMEOUT_MILLIS),
        ) {
            self.transition_to(ContinuousSound::Hum)
        } else {
            None
        }
    }

    pub fn lid(&self) -> (lid: LidState)
        ensures
            lid == self@.lid,
    {
        self.lid
    }

    pub fn muted(&self) -> (muted: bool)
        ensures
            muted == self@.muted,
    {
        self.muted
    }

    pub fn tape_reader_running(&self) -> (running: bool)
        ensures
            running == self@.tape_reader_running,
    {
        self.tape_reader_running
    }

    pub fn current_continuous(&self) -> (sound: Option<ContinuousSound>)
        ensures
            sound == self@.continuous,
    {
        self.continuous
    }

    pub fn pending_effect_count(&self) -> (count: usize)
        ensures
            count == self@.effects.len(),
    {
        self.effects.len()
    }

    pub fn take_next_effect(&mut self) -> (effect: Option<EffectRequest>)
        requires
            old(self)@.wf(),
        ensures
            final(self)@.wf(),
            match effect {
                Some(e) => old(self)@.effects.len() > 0 && e == old(self)@.effects[0]
                    && final(self)@ == (CueView {
                    effects: old(self)@.effects.drop_first(),
                    ..old(self)@
                }),
                None => old(self)@.effects.len() == 0 && final(self)@ == old(self)@,
            },
    {
        let effect = self.effects.pop_front();
        proof {
            if effect is Some {
                assert(self@.effects =~= old(self)@.effects.drop_first());
            }
        }
        effect
    }
}

/// However requests arrive, no more than four effects ever wait.
pub proof fn lemma_effect_queue_bounded(queue: Seq<EffectRequest>, sound: EffectSound)
    requires
        queue.len() <= MAX_PENDING_EFFECTS,
    ensures
        pushed(queue, sound).len() <= MAX_PENDING_EFFECTS,
        queue.len() < MAX_PENDING_EFFECTS ==> pushed(queue, sound).last() == request_for(sound),
        queue.len() == MAX_PENDING_EFFECTS ==> pushed(queue, sound) == queue,
{
}

} // verus!
