use asr33emu::adapters::sound_library::SoundLibrary;
use asr33emu::adapters::audio::{
    audio_events_for, continuous_key, effect_key, lid_prefix, parse_pcm_wave, AudioAvailability,
    WavError, ASR33_MARGIN_BELL_POST_COLUMN, LEGACY_AUDIO_BELL_COLUMN,
};
use asr33emu::domain::audio::{
    AudioCues, ContinuousSound, EffectSound, COLUMN_BELL_COLUMN, MAX_PENDING_EFFECTS,
};
use asr33emu::domain::config::LidState;
use asr33emu::domain::terminal::CharacterEvent;
use asr33emu::domain::time::Duration;

fn make_pcm_wave(channels: u16, sample_rate: u32, samples: &[i16]) -> Vec<u8> {
    let data_len = samples.len() * 2;
    let riff_len = 4 + (8 + 16) + (8 + data_len);
    let mut bytes = Vec::new();
    bytes.extend_from_slice(b"RIFF");
    bytes.extend_from_slice(&(riff_len as u32).to_le_bytes());
    bytes.extend_from_slice(b"WAVE");
    bytes.extend_from_slice(b"fmt ");
    bytes.extend_from_slice(&16u32.to_le_bytes());
    bytes.extend_from_slice(&1u16.to_le_bytes());
    bytes.extend_from_slice(&channels.to_le_bytes());
    bytes.extend_from_slice(&sample_rate.to_le_bytes());
    let block_align = channels * 2;
    bytes.extend_from_slice(&(sample_rate * u32::from(block_align)).to_le_bytes());
    bytes.extend_from_slice(&block_align.to_le_bytes());
    bytes.extend_from_slice(&16u16.to_le_bytes());
    bytes.extend_from_slice(b"data");
    bytes.extend_from_slice(&(data_len as u32).to_le_bytes());
    for sample in samples {
        bytes.extend_from_slice(&sample.to_le_bytes());
    }
    bytes
}

#[test]
fn rejects_non_pcm_and_invalid_channel_layouts() {
    let mut wave = make_pcm_wave(2, 48_000, &[0, 0]);
    wave[20..22].copy_from_slice(&3u16.to_le_bytes());
    assert_eq!(
        parse_pcm_wave(&wave).expect_err("float WAV must be rejected"),
        WavError::UnsupportedEncoding(3)
    );

    let wave = make_pcm_wave(3, 48_000, &[0, 0, 0]);
    assert_eq!(
        parse_pcm_wave(&wave).expect_err("three-channel WAV must be rejected"),
        WavError::UnsupportedChannels(3)
    );
}

#[test]
fn decodes_interleaved_stereo_samples_and_frames() {
    let wave = make_pcm_wave(2, 48_000, &[100, -100, 200, -200]);
    let clip = parse_pcm_wave(&wave).expect("valid synthetic WAV");
    assert_eq!(clip.sample_rate(), 48_000);
    assert_eq!(clip.channels(), 2);
    assert_eq!(clip.frame_count(), 2);
    assert_eq!(clip.samples().as_slice(), [100, -100, 200, -200]);
    let mono = parse_pcm_wave(&make_pcm_wave(1, 44_100, &[1234])).expect("mono WAV");
    assert_eq!(mono.frame_count(), 1);
}

#[test]
fn malformed_containers_report_the_first_problem() {
    assert_eq!(parse_pcm_wave(b"RIFF").expect_err("short"), WavError::TooShort);
    assert_eq!(
        parse_pcm_wave(b"RIFX\0\0\0\0WAVE").expect_err("not riff"),
        WavError::NotRiffWave
    );
    assert_eq!(
        parse_pcm_wave(b"RIFF\0\0\0\0WAVE").expect_err("no chunks"),
        WavError::MissingFormat
    );
    let mut truncated = make_pcm_wave(1, 8_000, &[1, 2]);
    truncated.truncate(truncated.len() - 1);
    assert_eq!(
        parse_pcm_wave(&truncated).expect_err("data chunk cut short"),
        WavError::TruncatedChunk
    );
    let mut no_data = make_pcm_wave(1, 8_000, &[]);
    no_data.truncate(no_data.len() - 8);
    assert_eq!(
        parse_pcm_wave(&no_data).expect_err("no data chunk"),
        WavError::MissingData
    );
    assert_eq!(
        parse_pcm_wave(&make_pcm_wave(1, 8_000, &[])).expect_err("empty data"),
        WavError::EmptyData
    );
    let mut eight_bit = make_pcm_wave(1, 8_000, &[0]);
    eight_bit[34..36].copy_from_slice(&8u16.to_le_bytes());
    assert_eq!(
        parse_pcm_wave(&eight_bit).expect_err("8-bit"),
        WavError::UnsupportedBits(8)
    );
    let mut misaligned = make_pcm_wave(2, 8_000, &[0, 0]);
    misaligned[32..34].copy_from_slice(&2u16.to_le_bytes());
    assert_eq!(
        parse_pcm_wave(&misaligned).expect_err("alignment"),
        WavError::InvalidBlockAlignment
    );
    assert_eq!(WavError::UnsupportedBits(8).message(), "unsupported WAV sample size 8 bits");
    assert_eq!(WavError::UnsupportedEncoding(3).message(), "unsupported WAV encoding 3");
}

#[test]
fn audio_availability_represents_device_failure_without_making_it_fatal() {
    assert_eq!(
        AudioAvailability::unavailable("no output device".to_owned()),
        AudioAvailability::Unavailable("no output device".to_owned())
    );
}

#[test]
fn audio_rodio_availability_represents_device_failure_without_making_it_fatal() {
    assert_eq!(
        AudioAvailability::unavailable("no output device".to_owned()),
        AudioAvailability::Unavailable("no output device".to_owned())
    );
}

#[test]
fn legacy_sound_names_are_mapped_for_both_lid_families() {
    assert_eq!(lid_prefix(LidState::Up), "up");
    assert_eq!(lid_prefix(LidState::Down), "down");
    assert_eq!(continuous_key(ContinuousSound::PrintChars), "print-chars");
    assert_eq!(continuous_key(ContinuousSound::PrintSpaces), "print-spaces");
    assert_eq!(continuous_key(ContinuousSound::Hum), "hum");
    assert_eq!(effect_key(EffectSound::CarriageReturn), "cr");
    assert_eq!(effect_key(EffectSound::MotorOn), "motor-on");
    assert_eq!(effect_key(EffectSound::MotorOff), "motor-off");
}

#[test]
fn asr33_margin_position_matches_72_column_rustair_semantics() {
    assert_eq!(ASR33_MARGIN_BELL_POST_COLUMN, 72 - 8 + 1);
}

#[test]
fn legacy_and_asr33_margin_columns_are_distinct() {
    assert_ne!(LEGACY_AUDIO_BELL_COLUMN, ASR33_MARGIN_BELL_POST_COLUMN);
}

fn event(character: char, column: usize) -> CharacterEvent {
    CharacterEvent { character, column }
}

#[test]
fn margin_policy_moves_the_legacy_bell_and_adds_margin_bell_and_wrap_return() {
    assert_eq!(audio_events_for(event('A', 62)), [event('A', 61)]);
    assert_eq!(audio_events_for(event('\r', 62)), [event('\r', 62)]);
    assert_eq!(
        audio_events_for(event('A', 65)),
        [event('A', 65), event('\u{7}', 0)]
    );
    assert_eq!(
        audio_events_for(event('A', 0)),
        [event('A', 0), event('\r', 0)]
    );
    assert_eq!(audio_events_for(event('\n', 0)), [event('\n', 0)]);
}

#[test]
fn printable_and_space_activity_select_legacy_continuous_loops() {
    let mut audio = AudioCues::new(LidState::Up, false, Duration::zero());
    assert_eq!(
        audio.process_character(event('A', 1), Duration::zero()),
        Some(ContinuousSound::PrintChars)
    );
    assert_eq!(audio.current_continuous(), Some(ContinuousSound::PrintChars));
    assert_eq!(
        audio.process_character(event(' ', 2), Duration::from_millis(100)),
        Some(ContinuousSound::PrintSpaces)
    );
    assert_eq!(audio.current_continuous(), Some(ContinuousSound::PrintSpaces));
}

#[test]
fn carriage_return_line_feed_bell_and_column_bell_preserve_effect_order() {
    let mut audio = AudioCues::new(LidState::Up, false, Duration::zero());
    audio.process_character(event('\r', COLUMN_BELL_COLUMN), Duration::zero());
    audio.process_character(event('\n', 0), Duration::from_millis(1));
    audio.process_character(event('\u{7}', 0), Duration::from_millis(2));
    assert_eq!(audio.take_next_effect().unwrap().sound, EffectSound::CarriageReturn);
    assert_eq!(audio.take_next_effect().unwrap().sound, EffectSound::Bell);
    assert_eq!(audio.take_next_effect().unwrap().sound, EffectSound::Platen);
    assert_eq!(audio.take_next_effect().unwrap().sound, EffectSound::Bell);
}

#[test]
fn isolated_print_activity_returns_to_hum_after_one_character_cycle() {
    let mut audio = AudioCues::new(LidState::Down, false, Duration::zero());
    audio.process_character(event('X', 1), Duration::zero());
    assert_eq!(audio.tick(Duration::from_millis(109)), None);
    assert_eq!(audio.current_continuous(), Some(ContinuousSound::PrintChars));
    assert_eq!(audio.tick(Duration::from_millis(110)), Some(ContinuousSound::Hum));
    assert_eq!(audio.current_continuous(), Some(ContinuousSound::Hum));
}

#[test]
fn sustained_ten_cps_activity_does_not_fall_back_to_hum_between_characters() {
    let mut audio = AudioCues::new(LidState::Up, false, Duration::zero());
    for index in 0..5u64 {
        let now = Duration::from_millis(index * 100);
        audio.process_character(event('A', index as usize + 1), now);
        audio.tick(Duration::from_millis(index * 100 + 99));
        assert_eq!(audio.current_continuous(), Some(ContinuousSound::PrintChars));
    }
}

#[test]
fn rapid_duplicate_keypresses_are_coalesced_instead_of_echoing() {
    let mut audio = AudioCues::new(LidState::Up, false, Duration::zero());
    audio.keypress(Duration::zero());
    audio.keypress(Duration::from_millis(5));
    audio.keypress(Duration::from_millis(20));
    assert_eq!(audio.pending_effect_count(), 1);
    assert_eq!(audio.take_next_effect().unwrap().sound, EffectSound::Key);

    audio.keypress(Duration::from_millis(80));
    assert_eq!(audio.pending_effect_count(), 1);
    assert_eq!(audio.take_next_effect().unwrap().sound, EffectSound::Key);
}

#[test]
fn lid_change_queues_one_effect_and_redundant_set_is_silent() {
    let mut audio = AudioCues::new(LidState::Up, false, Duration::zero());
    assert!(audio.set_lid(LidState::Down, Duration::zero()));
    assert!(!audio.set_lid(LidState::Down, Duration::from_millis(1)));
    assert_eq!(audio.pending_effect_count(), 1);
    assert_eq!(audio.take_next_effect().unwrap().sound, EffectSound::Lid);
    assert_eq!(audio.lid(), LidState::Down);
}

#[test]
fn pending_effect_queue_retains_legacy_cap_of_four() {
    let mut audio = AudioCues::new(LidState::Up, false, Duration::zero());
    audio.process_character(event('\r', COLUMN_BELL_COLUMN), Duration::zero());
    audio.process_character(event('\n', 0), Duration::from_millis(1));
    audio.keypress(Duration::from_millis(100));
    assert_eq!(audio.pending_effect_count(), MAX_PENDING_EFFECTS);
    audio.process_character(event('\u{7}', 0), Duration::from_millis(101));
    assert_eq!(audio.pending_effect_count(), MAX_PENDING_EFFECTS);
}

#[test]
fn tape_reader_loop_and_mute_are_independent_switches() {
    let mut audio = AudioCues::new(LidState::Up, false, Duration::zero());
    audio.set_tape_reader_running(true);
    assert!(audio.tape_reader_running());
    assert!(audio.set_muted(true));
    assert!(!audio.set_muted(true));
    assert!(audio.muted());
    audio.set_tape_reader_running(false);
    assert!(!audio.tape_reader_running());
}

#[test]
fn startup_and_shutdown_effects_use_legacy_play_times() {
    let mut audio = AudioCues::new(LidState::Down, false, Duration::zero());
    audio.start(Duration::zero());
    let on = audio.take_next_effect().unwrap();
    assert_eq!(on.sound, EffectSound::MotorOn);
    assert_eq!(on.max_play_time, Duration::from_millis(1500));
    audio.keypress(Duration::from_millis(10));
    audio.prepare_shutdown(Duration::from_secs(1));
    let off = audio.take_next_effect().unwrap();
    assert_eq!(off.sound, EffectSound::MotorOff);
    assert_eq!(off.max_play_time, Duration::from_millis(400));
    assert_eq!(audio.take_next_effect(), None);
}

fn sound_files(entries: &[(&str, Vec<u8>)]) -> Vec<(String, Vec<u8>)> {
    entries
        .iter()
        .map(|(stem, bytes)| (stem.to_string(), bytes.clone()))
        .collect()
}

#[test]
fn sound_library_keeps_only_decodable_recordings_in_order() {
    let files = sound_files(&[
        ("up-hum", make_pcm_wave(1, 8_000, &[1])),
        ("notes", b"not a wave".to_vec()),
        ("up-key-1", make_pcm_wave(1, 8_000, &[2])),
    ]);
    let library = SoundLibrary::from_files(&files).expect("two recordings decode");
    let hum = library.select(LidState::Up, "hum", 0).expect("exact stem");
    assert_eq!(hum.samples(), &vec![1]);
    assert!(SoundLibrary::from_files(&sound_files(&[("junk", vec![0; 4])])).is_none());
    assert!(SoundLibrary::from_files(&Vec::new()).is_none());
}

#[test]
fn sound_library_prefers_the_exact_stem_then_rotates_through_variants() {
    let files = sound_files(&[
        ("down-key-1", make_pcm_wave(1, 8_000, &[11])),
        ("up-key-1", make_pcm_wave(1, 8_000, &[21])),
        ("up-key-2", make_pcm_wave(1, 8_000, &[22])),
        ("up-cr", make_pcm_wave(1, 8_000, &[30])),
        ("up-cr-1", make_pcm_wave(1, 8_000, &[31])),
        ("up-keyboard", make_pcm_wave(1, 8_000, &[40])),
    ]);
    let library = SoundLibrary::from_files(&files).expect("recordings decode");
    let sample = |lid, key: &str, variant| {
        library
            .select(lid, key, variant)
            .map(|clip| clip.samples()[0])
    };
    assert_eq!(sample(LidState::Up, "cr", 5), Some(30));
    assert_eq!(sample(LidState::Up, "key", 0), Some(21));
    assert_eq!(sample(LidState::Up, "key", 1), Some(22));
    assert_eq!(sample(LidState::Up, "key", 2), Some(21));
    assert_eq!(sample(LidState::Down, "key", 7), Some(11));
    assert_eq!(sample(LidState::Down, "hum", 0), None);
    assert_eq!(sample(LidState::Up, "motor-on", 0), None);
}
