//! Recordings of the machine, and which one plays for a sound.
//!
//! A recording is found by its file stem: `up-hum` or `down-key`, say, for the
//! lid position and the sound. Where no recording has that exact stem, numbered
//! variants such as `up-key-1`, `up-key-2` are chosen from in turn.

use vstd::prelude::*;
use crate::adapters::audio::{lid_prefix, parse_pcm_wave, wave_outcome, PcmClip};
use crate::domain::config::LidState;
use crate::util::{empty_string, push_char, push_chars};

verus! {

/// A decoded recording and the file stem it was loaded from.
pub struct LoadedSound {
    pub stem: String,
    pub clip: PcmClip,
}

/// The recordings, in the order they were loaded.
pub struct SoundLibrary {
    sounds: Vec<LoadedSound>,
}

/// A recording as plain values: its stem, and its rate, channels and samples.
pub open spec fn sound_entry(sound: LoadedSound) -> (Seq<char>, (u32, u16, Seq<i16>)) {
    (sound.stem@, (sound.clip@.sample_rate, sound.clip@.channels, sound.clip@.samples))
}

/// Files as plain values: stem and contents.
pub open spec fn file_entries(files: Seq<(String, Vec<u8>)>) -> Seq<(Seq<char>, Seq<u8>)> {
    files.map_values(|f: (String, Vec<u8>)| (f.0@, f.1@))
}

/// The recordings kept from `files`, in order: those that decode as PCM WAV.
pub open spec fn kept_sounds(files: Seq<(Seq<char>, Seq<u8>)>) -> Seq<
    (Seq<char>, (u32, u16, Seq<i16>)),
>
    decreases files.len(),
{
    if files.len() == 0 {
        Seq::empty()
    } else {
        let rest = kept_sounds(files.drop_last());
        match wave_outcome(files.last().1) {
            Ok(clip) => rest.push((files.last().0, clip)),
            Err(_) => rest,
        }
    }
}

pub open spec fn lid_name(lid: LidState) -> Seq<char> {
    match lid {
        LidState::Up => seq!['u', 'p'],
        LidState::Down => seq!['d', 'o', 'w', 'n'],
    }
}

/// The stem of the recording for `key` with the lid at `lid`.
pub open spec fn sound_stem(lid: LidState, key: Seq<char>) -> Seq<char> {
    lid_name(lid) + seq!['-'] + key
}

/// The first position at or after `from` whose stem is `target`.
pub open spec fn first_index(stems: Seq<Seq<char>>, target: Seq<char>, from: int) -> Option<int>
    decreases stems.len() - from,
{
    if from < 0 || from >= stems.len() {
        None
    } else if stems[from] == target {
        Some(from)
    } else {
        first_index(stems, target, from + 1)
    }
}

/// The positions, in order, whose stems begin with `prefix`.
pub open spec fn variant_indices(stems: Seq<Seq<char>>, prefix: Seq<char>) -> Seq<int>
    decreases stems.len(),
{
    if stems.len() == 0 {
        Seq::empty()
    } else {
        let rest = variant_indices(stems.drop_last(), prefix);
        if prefix.is_prefix_of(stems.last()) {
            rest.push(stems.len() - 1)
        } else {
            rest
        }
    }
}

/// Which recording plays: the exact stem if there is one, otherwise variant
/// number `variant` (counting round) among the stem's numbered variants.
pub open spec fn chosen_sound(stems: Seq<Seq<char>>, lid: LidState, key: Seq<char>, variant: nat) -> Option<
    int,
> {
    let stem = sound_stem(lid, key);
    match first_index(stems, stem, 0) {
        Some(i) => Some(i),
        None => {
            let variants = variant_indices(stems, stem + seq!['-']);
            if variants.len() == 0 {
                None
            } else {
                Some(variants[(variant % variants.len()) as int])
            }
        },
    }
}

proof fn lemma_first_index_skip(stems: Seq<Seq<char>>, target: Seq<char>, from: int, to: int)
    requires
        0 <= from <= to <= stems.len(),
        forall|j: int| from <= j < to ==> stems[j] != target,
    ensures
        first_index(stems, target, from) == first_index(stems, target, to),
    decreases to - from,
{
    if from < to {
        lemma_first_index_skip(stems, target, from + 1, to);
    }
}

/// Whether `text` begins with `prefix`.
fn has_prefix(text: &str, prefix: &str) -> (begins: bool)
    ensures
        begins == prefix@.is_prefix_of(text@),
{
    let prefix_len = prefix.unicode_len();
    let text_len = text.unicode_len();
    if prefix_len > text_len {
        return false;
    }
    let mut j: usize = 0;
    while j < prefix_len
        invariant
            prefix_len == prefix@.len(),
            text_len == text@.len(),
            prefix_len <= text_len,
            j <= prefix_len,
            forall|k: int| 0 <= k < j ==> prefix@[k] == text@[k],
        decreases prefix_len - j,
    {
        if text.get_char(j) != prefix.get_char(j) {
            return false;
        }
        j += 1;
    }
    assert(prefix@ =~= text@.subrange(0, prefix@.len() as int));
    true
}

impl SoundLibrary {
    pub closed spec fn spec_sounds(&self) -> Seq<LoadedSound> {
        self.sounds@
    }

    /// The recordings as plain values, in order.
    pub open spec fn entries(&self) -> Seq<(Seq<char>, (u32, u16, Seq<i16>))> {
        self.spec_sounds().map_values(|s: LoadedSound| sound_entry(s))
    }

    pub open spec fn stems(&self) -> Seq<Seq<char>> {
        self.spec_sounds().map_values(|s: LoadedSound| s.stem@)
    }

    /// Decode the files given as stem and contents, keeping those that are PCM
    /// WAV in the order given; `None` when none of them is.
    pub fn from_files(files: &Vec<(String, Vec<u8>)>) -> (library: Option<SoundLibrary>)
        requires
            forall|i: int| 0 <= i < files@.len() ==> (#[trigger] files@[i]).1@.len() < usize::MAX,
        ensures
            match library {
                Some(lib) => lib.entries() == kept_sounds(file_entries(files@)) && lib.entries().len()
                    > 0,
                None => kept_sounds(file_entries(files@)).len() == 0,
            },
    {
        let ghost all = file_entries(files@);
        let mut sounds: Vec<LoadedSound> = Vec::new();
        let mut i: usize = 0;
        while i < files.len()
            invariant
                i <= files@.len(),
                all == file_entries(files@),
                forall|k: int| 0 <= k < files@.len() ==> (#[trigger] files@[k]).1@.len() < usize::MAX,
                sounds@.map_values(|s: LoadedSound| sound_entry(s)) == kept_sounds(all.take(i as int)),
            decreases files@.len() - i,
        {
            let file = &files[i];
            proof {
                assert(all.take(i + 1).drop_last() =~= all.take(i as int));
                assert(all.take(i + 1).last() == all[i as int]);
            }
            match parse_pcm_wave(file.1.as_slice()) {
                Ok(clip) => {
                    let ghost before = sounds@;
                    sounds.push(LoadedSound { stem: file.0.clone(), clip });
                    proof {
                        assert(sounds@.map_values(|s: LoadedSound| sound_entry(s)) =~= before.map_values(
                            |s: LoadedSound| sound_entry(s),
                        ).push(sound_entry(sounds@.last())));
                    }
                },
                Err(_) => {},
            }
            i += 1;
        }
        proof {
            assert(all.take(files@.len() as int) =~= all);
        }
        if sounds.len() == 0 {
            None
        } else {
            Some(SoundLibrary { sounds })
        }
    }

    /// The recording for `key` with the lid at `lid`: the exact stem, else
    /// numbered variant `variant` counted round, else none.
    pub fn select(&self, lid: LidState, key: &str, variant: usize) -> (clip: Option<&PcmClip>)
        ensures
            match chosen_sound(self.stems(), lid, key@, variant as nat) {
                Some(i) => 0 <= i < self.spec_sounds().len() && clip == Some(
                    &self.spec_sounds()[i].clip,
                ),
                None => clip is None,
            },
    {
        let ghost stems = self.stems();
        let mut stem = empty_string();
        push_chars(&mut stem, lid_prefix(lid));
        push_char(&mut stem, '-');
        push_chars(&mut stem, key);
        proof {
            reveal_strlit("up");
            reveal_strlit("down");
            assert(stem@ =~= sound_stem(lid, key@));
        }
        let n = self.sounds.len();
        let mut i: usize = 0;
        while i < n
            invariant
                n == self.sounds@.len(),
                stems == self.stems(),
                stem@ == sound_stem(lid, key@),
                i <= n,
                forall|j: int| 0 <= j < i ==> stems[j] != stem@,
            decreases n - i,
        {
            if self.sounds[i].stem == stem {
                proof {
                    lemma_first_index_skip(stems, stem@, 0, i as int);
                }
                return Some(&self.sounds[i].clip);
            }
            i += 1;
        }
        proof {
            lemma_first_index_skip(stems, stem@, 0, n as int);
        }
        let ghost wanted = stem@ + seq!['-'];
        push_char(&mut stem, '-');
        let mut variants: Vec<usize> = Vec::new();
        let mut k: usize = 0;
        while k < n
            invariant
                n == self.sounds@.len(),
                stems == self.stems(),
                stem@ == wanted,
                k <= n,
                variants@.len() == variant_indices(stems.take(k as int), wanted).len(),
                forall|m: int|
                    0 <= m < variants@.len() ==> variants@[m] as int == #[trigger] variant_indices(
                        stems.take(k as int),
                        wanted,
                    )[m],
                forall|m: int| 0 <= m < variants@.len() ==> variants@[m] < k,
            decreases n - k,
        {
            proof {
                assert(stems.take(k + 1).drop_last() =~= stems.take(k as int));
                assert(stems.take(k + 1).last() == stems[k as int]);
            }
            if has_prefix(self.sounds[k].stem.as_str(), stem.as_str()) {
                variants.push(k);
            }
            k += 1;
        }
        proof {
            assert(stems.take(n as int) =~= stems);
        }
        if variants.len() == 0 {
            None
        } else {
            let pick = variants[variant % variants.len()];
            Some(&self.sounds[pick].clip)
        }
    }
}

} // verus!
