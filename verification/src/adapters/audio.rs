//! Mechanical-audio support: device availability, PCM WAV decoding, the sound
//! file names, and the right-margin bell policy.
//!
//! Audio is optional: a missing device is reported as unavailable and never
//! stops the emulator. Playback itself happens at the application edge.

use vstd::prelude::*;
use crate::domain::audio::{ContinuousSound, EffectSound};
use crate::domain::config::LidState;
use crate::domain::terminal::CharacterEvent;
use crate::util::{decimal_text, push_decimal};

verus! {

#[derive(Clone, Debug, Eq, PartialEq)]
pub enum AudioAvailability {
    Starting,
    Available,
    Unavailable(String),
    Stopped,
}

impl AudioAvailability {
    /// Audio could not start; the message says why.
    pub fn unavailable(message: String) -> (availability: Self)
        ensures
            availability == AudioAvailability::Unavailable(message),
    {
        AudioAvailability::Unavailable(message)
    }
}

#[derive(Clone, Copy, Debug, Eq, PartialEq, Structural)]
pub enum WavError {
    TooShort,
    NotRiffWave,
    TruncatedChunk,
    MissingFormat,
    MissingData,
    UnsupportedEncoding(u16),
    UnsupportedChannels(u16),
    UnsupportedBits(u16),
    InvalidBlockAlignment,
    EmptyData,
}

/// The fields of a `fmt ` chunk that decoding reads.
#[derive(Clone, Copy, Debug, Eq, PartialEq, Structural)]
pub struct WavFormat {
    pub encoding: u16,
    pub channels: u16,
    pub sample_rate: u32,
    pub block_align: u16,
    pub bits: u16,
}

/// Decoded 16-bit PCM audio, mono or stereo, samples interleaved by channel.
#[derive(Clone, Debug)]
pub struct PcmClip {
    sample_rate: u32,
    channels: u16,
    samples: Vec<i16>,
}

pub struct PcmView {
    pub sample_rate: u32,
    pub channels: u16,
    pub samples: Seq<i16>,
}

impl View for PcmClip {
    type V = PcmView;

    closed spec fn view(&self) -> PcmView {
        PcmView { sample_rate: self.sample_rate, channels: self.channels, samples: self.samples@ }
    }
}

/// Little-endian 16-bit value at `i`.
pub open spec fn le16(b: Seq<u8>, i: int) -> u16 {
    (b[i] as int + 256 * b[i + 1] as int) as u16
}

/// Little-endian 32-bit value at `i`.
pub open spec fn le32(b: Seq<u8>, i: int) -> u32 {
    (b[i] as int + 256 * b[i + 1] as int + 65536 * b[i + 2] as int + 16777216 * b[i + 3] as int) as u32
}

/// The four bytes at `i` spell `tag`.
pub open spec fn tag_at(b: Seq<u8>, i: int, tag: Seq<u8>) -> bool {
    b.subrange(i, i + 4) == tag
}

pub open spec fn riff_tag() -> Seq<u8> {
    seq![0x52u8, 0x49, 0x46, 0x46]
}

pub open spec fn wave_tag() -> Seq<u8> {
    seq![0x57u8, 0x41, 0x56, 0x45]
}

pub open spec fn fmt_tag() -> Seq<u8> {
    seq![0x66u8, 0x6d, 0x74, 0x20]
}

pub open spec fn data_tag() -> Seq<u8> {
    seq![0x64u8, 0x61, 0x74, 0x61]
}

/// The format fields of a `fmt ` chunk whose body starts at `start`.
pub open spec fn format_at(b: Seq<u8>, start: int) -> WavFormat {
    WavFormat {
        encoding: le16(b, start),
        channels: le16(b, start + 2),
        sample_rate: le32(b, start + 4),
        block_align: le16(b, start + 12),
        bits: le16(b, start + 14),
    }
}

/// Walk the chunks from `offset`: the last `fmt ` chunk and the first `data`
/// chunk's byte range are kept; chunks are padded to even length.
pub open spec fn scan_chunks(
    b: Seq<u8>,
    offset: int,
    format: Option<WavFormat>,
    data: Option<(int, int)>,
) -> Result<(Option<WavFormat>, Option<(int, int)>), WavError>
    decreases b.len() + 1 - offset,
{
    if offset < 0 || offset + 8 > b.len() {
        Ok((format, data))
    } else {
        let size = le32(b, offset + 4) as int;
        let start = offset + 8;
        let end = start + size;
        let next = end + size % 2;
        if end > b.len() {
            Err(WavError::TruncatedChunk)
        } else if tag_at(b, offset, fmt_tag()) {
            if size < 16 {
                Err(WavError::TruncatedChunk)
            } else {
                scan_chunks(b, next, Some(format_at(b, start)), data)
            }
        } else if tag_at(b, offset, data_tag()) && data is None {
            scan_chunks(b, next, format, Some((start, end)))
        } else {
            scan_chunks(b, next, format, data)
        }
    }
}

/// The sample stored little-endian in two bytes.
pub open spec fn sample_of(lo: u8, hi: u8) -> i16 {
    ((lo as int + 256 * hi as int) as u16) as i16
}

pub open spec fn decode_samples(data: Seq<u8>) -> Seq<i16> {
    Seq::new(data.len() / 2, |k: int| sample_of(data[2 * k], data[2 * k + 1]))
}

/// What decoding `b` gives: the clip's rate, channel count and samples, or the
/// first problem found.
pub open spec fn wave_outcome(b: Seq<u8>) -> Result<(u32, u16, Seq<i16>), WavError> {
    if b.len() < 12 {
        Err(WavError::TooShort)
    } else if !tag_at(b, 0, riff_tag()) || !tag_at(b, 8, wave_tag()) {
        Err(WavError::NotRiffWave)
    } else {
        match scan_chunks(b, 12, None, None) {
            Err(e) => Err(e),
            Ok((format, data)) => match format {
                None => Err(WavError::MissingFormat),
                Some(f) => if f.encoding != 1 {
                    Err(WavError::UnsupportedEncoding(f.encoding))
                } else if f.channels != 1 && f.channels != 2 {
                    Err(WavError::UnsupportedChannels(f.channels))
                } else if f.bits != 16 {
                    Err(WavError::UnsupportedBits(f.bits))
                } else if f.block_align != f.channels * 2 {
                    Err(WavError::InvalidBlockAlignment)
                } else {
                    match data {
                        None => Err(WavError::MissingData),
                        Some((start, end)) => if end - start == 0 || (end - start) % (f.channels
                            * 2) as int != 0 {
                            Err(WavError::EmptyData)
                        } else {
                            Ok((f.sample_rate, f.channels, decode_samples(b.subrange(start, end))))
                        },
                    }
                },
            },
        }
    }
}

fn read_le16(b: &[u8], i: usize) -> (v: u16)
    requires
        i + 2 <= b@.len(),
    ensures
        v == le16(b@, i as int),
{
    (b[i] as u16) + (b[i + 1] as u16) * 256
}

fn read_le32(b: &[u8], i: usize) -> (v: u32)
    requires
        i + 4 <= b@.len(),
    ensures
        v == le32(b@, i as int),
{
    (b[i] as u32) + (b[i + 1] as u32) * 256 + (b[i + 2] as u32) * 65536 + (b[i + 3] as u32)
        * 16777216
}

fn has_tag(b: &[u8], i: usize, t0: u8, t1: u8, t2: u8, t3: u8) -> (found: bool)
    requires
        i + 4 <= b@.len(),
    ensures
        found == tag_at(b@, i as int, seq![t0, t1, t2, t3]),
{
    let found = b[i] == t0 && b[i + 1] == t1 && b[i + 2] == t2 && b[i + 3] == t3;
    proof {
        if found {
            assert(b@.subrange(i as int, i + 4) =~= seq![t0, t1, t2, t3]);
        } else {
            assert(b@.subrange(i as int, i + 4)[0] == b@[i as int]);
            assert(b@.subrange(i as int, i + 4)[1] == b@[i + 1]);
            assert(b@.subrange(i as int, i + 4)[2] == b@[i + 2]);
            assert(b@.subrange(i as int, i + 4)[3] == b@[i + 3]);
        }
    }
    found
}

/// Decode a 16-bit PCM RIFF/WAVE file.
pub fn parse_pcm_wave(bytes: &[u8]) -> (result: Result<PcmClip, WavError>)
    requires
        bytes@.len() < usize::MAX,
    ensures
        match result {
            Ok(clip) => wave_outcome(bytes@) == Ok::<(u32, u16, Seq<i16>), WavError>(
                (clip@.sample_rate, clip@.channels, clip@.samples),
            ),
            Err(e) => wave_outcome(bytes@) == Err::<(u32, u16, Seq<i16>), WavError>(e),
        },
{
    let len = bytes.len();
    if len < 12 {
        return Err(WavError::TooShort);
    }
    if !has_tag(bytes, 0, 0x52, 0x49, 0x46, 0x46) || !has_tag(bytes, 8, 0x57, 0x41, 0x56, 0x45) {
        return Err(WavError::NotRiffWave);
    }
    let mut format: Option<WavFormat> = None;
    let mut data: Option<(usize, usize)> = None;
    let mut offset: usize = 12;
    while offset <= len && len - offset >= 8
        invariant
            len == bytes@.len(),
            len >= 12,
            tag_at(bytes@, 0, riff_tag()),
            tag_at(bytes@, 8, wave_tag()),
            len < usize::MAX,
            12 <= offset <= len + 1,
            scan_chunks(bytes@, 12, None, None) == scan_chunks(
                bytes@,
                offset as int,
                format,
                match data {
                    Some((s, e)) => Some((s as int, e as int)),
                    None => None,
                },
            ),
            data matches Some((s, e)) ==> s <= e <= len,
        decreases len + 1 - offset,
    {
        let size = read_le32(bytes, offset + 4) as usize;
        let start = offset + 8;
        if size > len - start {
            return Err(WavError::TruncatedChunk);
        }
        let end = start + size;
        let next = end + size % 2;
        if has_tag(bytes, offset, 0x66, 0x6d, 0x74, 0x20) {
            if size < 16 {
                return Err(WavError::TruncatedChunk);
            }
            format = Some(
                WavFormat {
                    encoding: read_le16(bytes, start),
                    channels: read_le16(bytes, start + 2),
                    sample_rate: read_le32(bytes, start + 4),
                    block_align: read_le16(bytes, start + 12),
                    bits: read_le16(bytes, start + 14),
                },
            );
        } else if has_tag(bytes, offset, 0x64, 0x61, 0x74, 0x61) && data.is_none() {
            data = Some((start, end));
        }
        offset = next;
    }
    let f = match format {
        None => {
            return Err(WavError::MissingFormat);
        },
        Some(f) => f,
    };
    if f.encoding != 1 {
        return Err(WavError::UnsupportedEncoding(f.encoding));
    }
    if f.channels != 1 && f.channels != 2 {
        return Err(WavError::UnsupportedChannels(f.channels));
    }
    if f.bits != 16 {
        return Err(WavError::UnsupportedBits(f.bits));
    }
    let expected_align = f.channels * 2;
    if f.block_align != expected_align {
        return Err(WavError::InvalidBlockAlignment);
    }
    let (start, end) = match data {
        None => {
            return Err(WavError::MissingData);
        },
        Some(range) => range,
    };
    let count = end - start;
    if count == 0 || count % (expected_align as usize) != 0 {
        return Err(WavError::EmptyData);
    }
    let ghost body = bytes@.subrange(start as int, end as int);
    let mut samples: Vec<i16> = Vec::with_capacity(count / 2);
    let mut k: usize = 0;
    while k < count / 2
        invariant
            start <= end <= bytes@.len(),
            count == end - start,
            body == bytes@.subrange(start as int, end as int),
            k <= count / 2,
            samples@ == decode_samples(body).take(k as int),
        decreases count / 2 - k,
    {
        let lo = bytes[start + 2 * k];
        let hi = bytes[start + 2 * k + 1];
        let sample = #[verifier::truncate] (((lo as u16) + (hi as u16) * 256) as i16);
        samples.push(sample);
        assert(samples@ =~= decode_samples(body).take(k + 1));
        k += 1;
    }
    assert(samples@ =~= decode_samples(body));
    Ok(PcmClip { sample_rate: f.sample_rate, channels: f.channels, samples })
}

impl PcmClip {
    pub fn sample_rate(&self) -> (rate: u32)
        ensures
            rate == self@.sample_rate,
    {
        self.sample_rate
    }

    pub fn channels(&self) -> (channels: u16)
        ensures
            channels == self@.channels,
    {
        self.channels
    }

    pub fn samples(&self) -> (samples: &Vec<i16>)
        ensures
            samples@ == self@.samples,
    {
        &self.samples
    }

    /// Whole frames: one sample per channel.
    pub fn frame_count(&self) -> (frames: usize)
        requires
            self@.channels > 0,
        ensures
            frames == self@.samples.len() / self@.channels as nat,
    {
        self.samples.len() / (self.channels as usize)
    }
}

impl WavError {
    /// The user-facing description.
    pub fn message(&self) -> (text: String)
        ensures
            match self {
                WavError::TooShort => text@ == "WAV file is too short"@,
                WavError::NotRiffWave => text@ == "file is not RIFF/WAVE"@,
                WavError::TruncatedChunk => text@ == "WAV chunk is truncated"@,
                WavError::MissingFormat => text@ == "WAV fmt chunk is missing"@,
                WavError::MissingData => text@ == "WAV data chunk is missing"@,
                WavError::UnsupportedEncoding(v) => text@ == "unsupported WAV encoding "@
                    + decimal_text(*v as nat),
                WavError::UnsupportedChannels(v) => text@ == "unsupported WAV channel count "@
                    + decimal_text(*v as nat),
                WavError::UnsupportedBits(v) => text@ == "unsupported WAV sample size "@
                    + decimal_text(*v as nat) + " bits"@,
                WavError::InvalidBlockAlignment => text@ == "invalid WAV block alignment"@,
                WavError::EmptyData => text@ == "WAV contains no PCM frames"@,
            },
    {
        match self {
            WavError::TooShort => "WAV file is too short".to_owned(),
            WavError::NotRiffWave => "file is not RIFF/WAVE".to_owned(),
            WavError::TruncatedChunk => "WAV chunk is truncated".to_owned(),
            WavError::MissingFormat => "WAV fmt chunk is missing".to_owned(),
            WavError::MissingData => "WAV data chunk is missing".to_owned(),
            WavError::UnsupportedEncoding(v) => {
                let mut text = "unsupported WAV encoding ".to_owned();
                push_decimal(&mut text, *v as u64);
                text
            },
            WavError::UnsupportedChannels(v) => {
                let mut text = "unsupported WAV channel count ".to_owned();
                push_decimal(&mut text, *v as u64);
                text
            },
            WavError::UnsupportedBits(v) => {
                let mut text = "unsupported WAV sample size ".to_owned();
                push_decimal(&mut text, *v as u64);
                crate::util::push_chars(&mut text, " bits");
                text
            },
            WavError::InvalidBlockAlignment => "invalid WAV block alignment".to_owned(),
            WavError::EmptyData => "WAV contains no PCM frames".to_owned(),
        }
    }
}

/// The file-name prefix of each lid's recordings.
pub fn lid_prefix(lid: LidState) -> (prefix: &'static str)
    ensures
        prefix == (match lid {
            LidState::Up => "up",
            LidState::Down => "down",
        }),
{
    match lid {
        LidState::Up => "up",
        LidState::Down => "down",
    }
}

pub fn continuous_key(sound: ContinuousSound) -> (key: &'static str)
    ensures
        key == (match sound {
            ContinuousSound::PrintChars => "print-chars",
            ContinuousSound::PrintSpaces => "print-spaces",
            ContinuousSound::Hum => "hum",
        }),
{
    match sound {
        ContinuousSound::PrintChars => "print-chars",
        ContinuousSound::PrintSpaces => "print-spaces",
        ContinuousSound::Hum => "hum",
    }
}

pub fn effect_key(sound: EffectSound) -> (key: &'static str)
    ensures
        key == (match sound {
            EffectSound::Key => "key",
            EffectSound::Bell => "bell",
            EffectSound::CarriageReturn => "cr",
            EffectSound::Platen => "platen",
            EffectSound::MotorOn => "motor-on",
            EffectSound::MotorOff => "motor-off",
            EffectSound::Lid => "lid",
        }),
{
    match sound {
        EffectSound::Key => "key",
        EffectSound::Bell => "bell",
        EffectSound::CarriageReturn => "cr",
        EffectSound::Platen => "platen",
        EffectSound::MotorOn => "motor-on",
        EffectSound::MotorOff => "motor-off",
        EffectSound::Lid => "lid",
    }
}

/// The post-character column of the column bell that the margin policy moves.
pub const LEGACY_AUDIO_BELL_COLUMN: usize = 62;

/// On a 72-column page the margin bell rings eight positions before the edge,
/// after the character has advanced the carriage.
pub const ASR33_MARGIN_BELL_POST_COLUMN: usize = 65;

pub open spec fn is_printable(c: char) -> bool {
    ' ' <= c <= '~'
}

/// The character events the audio engine hears for one printed character: the
/// column bell is suppressed for printable characters, the margin bell
/// follows column 65, and a printable character reported at column zero (an
/// automatic wrap) is followed by a carriage-return effect.
pub open spec fn margin_events(event: CharacterEvent) -> Seq<CharacterEvent> {
    let printable = is_printable(event.character);
    let forwarded = if printable && event.column == LEGACY_AUDIO_BELL_COLUMN {
        CharacterEvent { column: (LEGACY_AUDIO_BELL_COLUMN - 1) as usize, ..event }
    } else {
        event
    };
    let bell = if printable && event.column == ASR33_MARGIN_BELL_POST_COLUMN {
        seq![CharacterEvent { character: '\u{7}', column: 0 }]
    } else {
        Seq::empty()
    };
    let wrap = if printable && event.column == 0 {
        seq![CharacterEvent { character: '\r', column: 0 }]
    } else {
        Seq::empty()
    };
    seq![forwarded] + bell + wrap
}

pub fn audio_events_for(event: CharacterEvent) -> (events: Vec<CharacterEvent>)
    ensures
        events@ == margin_events(event),
{
    let printable = ' ' <= event.character && event.character <= '~';
    let mut events: Vec<CharacterEvent> = Vec::new();
    if printable && event.column == LEGACY_AUDIO_BELL_COLUMN {
        events.push(CharacterEvent { character: event.character, column: LEGACY_AUDIO_BELL_COLUMN - 1 });
    } else {
        events.push(event);
    }
    if printable && event.column == ASR33_MARGIN_BELL_POST_COLUMN {
        events.push(CharacterEvent { character: '\u{7}', column: 0 });
    }
    if printable && event.column == 0 {
        events.push(CharacterEvent { character: '\r', column: 0 });
    }
    assert(events@ =~= margin_events(event));
    events
}

} // verus!
