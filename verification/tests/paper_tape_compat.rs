use asr33emu::domain::paper_tape::{
    PaperTape, PunchMode, PunchState, ReaderOptions, ReaderState, ReaderStep, StopCause, TapePunch,
    TapeReader, TrailerPositions,
};

/// The shared leader/data/trailer tape: two nulls, "AB", two 0200 bytes, two nulls.
const SHARED_TAPE: &[u8] = b"\x00\x00AB\x80\x80\x00\x00";

fn shared_reader(options: ReaderOptions) -> TapeReader {
    let mut reader = TapeReader::new(options);
    reader.load(PaperTape::new(SHARED_TAPE.to_vec()));
    reader
}

#[test]
fn shared_fixture_has_expected_binary_layout_and_trailers() {
    assert_eq!(SHARED_TAPE, b"\x00\x00AB\x80\x80\x00\x00");
    let tape = PaperTape::new(SHARED_TAPE.to_vec());
    assert_eq!(
        tape.trailers(),
        TrailerPositions {
            octal_200: Some(4),
            null: Some(6),
        }
    );
}

#[test]
fn reader_matches_python_positions_and_legacy_autostop_step_by_step() {
    let mut reader = shared_reader(ReaderOptions::default());
    assert_eq!(reader.state(), ReaderState::Stopped);
    assert!(reader.start());
    assert_eq!(reader.position(), 2);

    assert_eq!(reader.step(), ReaderStep::Byte(b'A'));
    assert_eq!(
        (reader.position(), reader.state()),
        (3, ReaderState::Running)
    );
    assert_eq!(reader.step(), ReaderStep::Byte(b'B'));
    assert_eq!(
        (reader.position(), reader.state()),
        (4, ReaderState::Running)
    );

    assert_eq!(reader.step(), ReaderStep::Byte(0x80));
    assert_eq!(
        (reader.position(), reader.state()),
        (5, ReaderState::Running)
    );
    assert_eq!(
        reader.step(),
        ReaderStep::Stopped(StopCause::TrailingOctal200)
    );
    assert_eq!(
        (reader.position(), reader.state()),
        (5, ReaderState::Stopped)
    );
    assert_eq!(reader.stop_cause(), Some(StopCause::TrailingOctal200));
}

#[test]
fn reader_sets_msb_on_emitted_data() {
    let mut reader = shared_reader(ReaderOptions {
        set_msb: true,
        ..ReaderOptions::default()
    });
    assert!(reader.start());
    assert_eq!(reader.step(), ReaderStep::Byte(0xc1));
    assert_eq!(reader.step(), ReaderStep::Byte(0xc2));
}

#[test]
fn disabled_autostop_reads_trailers_until_physical_end() {
    let mut reader = shared_reader(ReaderOptions {
        auto_stop: false,
        ..ReaderOptions::default()
    });
    assert!(reader.start());
    let mut emitted = Vec::new();
    loop {
        match reader.step() {
            ReaderStep::Byte(byte) => emitted.push(byte),
            ReaderStep::Stopped(cause) => {
                assert_eq!(cause, StopCause::EndOfTape);
                break;
            }
            ReaderStep::Idle => panic!("running reader became idle"),
        }
    }
    assert_eq!(emitted, b"AB\x80\x80\x00\x00");
    assert_eq!(reader.position(), SHARED_TAPE.len());
}

#[test]
fn null_only_trailer_preserves_strict_comparison_legacy_behavior() {
    let mut reader = TapeReader::new(ReaderOptions {
        skip_leading_nulls: false,
        ..ReaderOptions::default()
    });
    reader.load(PaperTape::new(b"A\x00\x00".to_vec()));
    assert!(reader.start());
    assert_eq!(reader.step(), ReaderStep::Byte(b'A'));
    assert_eq!(reader.step(), ReaderStep::Byte(0));
    assert_eq!(reader.position(), 2);
    assert_eq!(reader.step(), ReaderStep::Stopped(StopCause::TrailingNull));
}

#[test]
fn rewind_only_changes_a_loaded_stopped_reader() {
    let mut reader = shared_reader(ReaderOptions::default());
    assert!(reader.start());
    assert_eq!(reader.step(), ReaderStep::Byte(b'A'));
    assert!(!reader.rewind());
    reader.stop();
    assert!(reader.rewind());
    assert_eq!(reader.position(), 0);
    assert!(!reader.rewind());
}

#[test]
fn unloaded_reader_cannot_start_or_advance() {
    let mut reader = TapeReader::new(ReaderOptions::default());
    assert!(!reader.start());
    assert_eq!(reader.step(), ReaderStep::Idle);
    assert_eq!(reader.state(), ReaderState::Unloaded);
}

#[test]
fn append_punch_preserves_existing_bytes() {
    let mut punch = TapePunch::new(PunchMode::Append);
    punch.load(b"OLD");
    assert_eq!(punch.state(), PunchState::Stopped);
    assert!(punch.start());
    assert!(punch.punch(b"NEW"));
    assert_eq!(punch.bytes(), Some(b"OLDNEW".as_slice()));
    assert_eq!(punch.unload(), Some(b"OLDNEW".to_vec()));
    assert_eq!(punch.state(), PunchState::Unloaded);
}

#[test]
fn overwrite_punch_discards_existing_bytes_when_loaded() {
    let mut punch = TapePunch::new(PunchMode::Overwrite);
    punch.load(b"OLD");
    assert_eq!(punch.bytes(), Some(b"".as_slice()));
    assert!(!punch.punch(b"IGNORED"));
    assert!(punch.start());
    assert!(punch.punch(b"NEW"));
    assert_eq!(punch.unload(), Some(b"NEW".to_vec()));
}

#[test]
fn changing_punch_mode_does_not_rewrite_an_already_loaded_tape() {
    let mut punch = TapePunch::new(PunchMode::Append);
    punch.load(b"OLD");
    punch.set_mode(PunchMode::Overwrite);
    assert_eq!(punch.bytes(), Some(b"OLD".as_slice()));
    assert!(punch.start());
    assert!(punch.punch(b"NEW"));
    assert_eq!(punch.bytes(), Some(b"OLDNEW".as_slice()));
}

#[test]
fn reader_without_autostop_reads_every_remaining_byte_then_stops_at_the_end() {
    let bytes = vec![0x00, 0x41, 0x80, 0x00, 0x7f];
    let mut reader = TapeReader::new(ReaderOptions {
        skip_leading_nulls: false,
        auto_stop: false,
        set_msb: true,
    });
    reader.load(PaperTape::new(bytes.clone()));
    assert!(reader.start());
    let mut read = Vec::new();
    loop {
        match reader.step() {
            ReaderStep::Byte(byte) => read.push(byte),
            ReaderStep::Stopped(cause) => {
                assert_eq!(cause, StopCause::EndOfTape);
                break;
            }
            ReaderStep::Idle => panic!("a running reader is never idle"),
        }
    }
    let expected: Vec<u8> = bytes.iter().map(|byte| byte | 0x80).collect();
    assert_eq!(read, expected);
    assert_eq!(reader.position(), bytes.len());
    assert_eq!(reader.state(), ReaderState::Stopped);
}

fn read_all(bytes: &[u8], auto_stop: bool) -> (Vec<u8>, StopCause, usize) {
    let mut reader = TapeReader::new(ReaderOptions {
        skip_leading_nulls: false,
        auto_stop,
        set_msb: false,
    });
    reader.load(PaperTape::new(bytes.to_vec()));
    assert!(reader.start());
    let mut read = Vec::new();
    loop {
        match reader.step() {
            ReaderStep::Byte(byte) => read.push(byte),
            ReaderStep::Stopped(cause) => return (read, cause, reader.position()),
            ReaderStep::Idle => panic!("a running reader is never idle"),
        }
    }
}

#[test]
fn auto_stop_feeds_only_the_first_trailer_byte() {
    assert_eq!(
        read_all(b"AB\x80\x80\x00", true),
        (b"AB\x80".to_vec(), StopCause::TrailingOctal200, 3)
    );
    assert_eq!(
        read_all(b"AB\x00\x00", true),
        (b"AB\x00".to_vec(), StopCause::TrailingNull, 3)
    );
    // A one-byte trailer is the last byte: the reader runs off the end.
    assert_eq!(
        read_all(b"AB\x00", true),
        (b"AB\x00".to_vec(), StopCause::EndOfTape, 3)
    );
    assert_eq!(
        read_all(b"AB\x80\x80\x00", false),
        (b"AB\x80\x80\x00".to_vec(), StopCause::EndOfTape, 5)
    );
}

#[test]
fn punching_in_pieces_accumulates_after_the_loaded_tape() {
    for (mode, expected) in [
        (PunchMode::Append, b"XYABC".to_vec()),
        (PunchMode::Overwrite, b"ABC".to_vec()),
    ] {
        let mut punch = TapePunch::new(mode);
        punch.load(b"XY");
        assert!(!punch.punch(b"lost"), "a stopped punch punches nothing");
        assert!(punch.start());
        assert!(punch.punch(b"A"));
        assert!(punch.punch(b"BC"));
        assert_eq!(punch.state(), PunchState::Running);
        assert_eq!(punch.bytes(), Some(&expected[..]));
    }
}
