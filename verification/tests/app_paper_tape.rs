use asr33emu::app::paper_tape::feed_answer;
use asr33emu::app::{ImmediateTransmit, RuntimeError};
use asr33emu::app::paper_tape::reader_route_available;
use asr33emu::domain::events::CommunicationMode;
use asr33emu::app::paper_tape::{
    normalize_reader_emission, reader_feed_interval, ConfirmedReaderByte, FeedResult, ReaderFeed,
};
use asr33emu::domain::config::InputReturnMode;
use asr33emu::domain::paper_tape::{PaperTape, ReaderOptions, ReaderState, TapeReader};
use asr33emu::domain::time::Duration;

fn collect_feed(data: &[u8], mode: InputReturnMode, seek: Option<usize>) -> Vec<u8> {
    let mut reader = TapeReader::new(ReaderOptions {
        skip_leading_nulls: false,
        auto_stop: false,
        set_msb: false,
    });
    reader.load(PaperTape::new(data.to_vec()));
    if let Some(position) = seek {
        reader.seek(position).expect("test seek is valid");
    }
    assert!(reader.start());
    let mut feed = ReaderFeed::new(reader, Duration::zero(), mode);
    let mut output = Vec::new();
    let mut now = Duration::zero();
    while feed.reader().state() == ReaderState::Running || feed.pending_count() != 0 {
        feed.tick(now, |emission| {
            assert!(emission.as_slice().len() <= 2);
            output.extend_from_slice(emission.as_slice());
            FeedResult::Accepted
        });
        feed.confirm_transmitted();
        assert!(feed.pending_count() <= 1);
        now = now.saturating_add(reader_feed_interval());
    }
    output
}

#[test]
fn reader_feed_normalizes_all_physical_line_ending_conventions() {
    for raw in [b"A\nB".as_slice(), b"A\rB".as_slice(), b"A\r\nB".as_slice()] {
        assert_eq!(collect_feed(raw, InputReturnMode::Cr, None), raw);
    }
    assert_eq!(
        collect_feed(b"ONE\nTWO\nTHREE\n", InputReturnMode::CrLf, None),
        b"ONE\r\nTWO\r\nTHREE\r\n"
    );
    assert_eq!(
        collect_feed(b"ONE\rTWO\rTHREE\r", InputReturnMode::CrLf, None),
        b"ONE\r\nTWO\r\nTHREE\r\n"
    );
    assert_eq!(
        collect_feed(b"ONE\r\nTWO\r\n", InputReturnMode::CrLf, None),
        b"ONE\r\nTWO\r\n"
    );
    assert_eq!(
        collect_feed(b"A\rB\nC\r\nD", InputReturnMode::CrLf, None),
        b"A\r\nB\r\nC\r\nD"
    );
}

#[test]
fn seek_to_physical_lf_breaks_confirmed_cr_adjacency() {
    assert_eq!(
        collect_feed(b"A\r\nB", InputReturnMode::CrLf, Some(2)),
        b"\r\nB"
    );
}

#[test]
fn seek_and_mode_change_clear_confirmed_adjacency_context() {
    for change_mode in [false, true] {
        let mut reader = TapeReader::new(ReaderOptions {
            skip_leading_nulls: false,
            auto_stop: false,
            set_msb: false,
        });
        reader.load(PaperTape::new(b"\r\n".to_vec()));
        assert!(reader.start());
        let initial_mode = if change_mode {
            InputReturnMode::Cr
        } else {
            InputReturnMode::CrLf
        };
        let mut feed = ReaderFeed::new(reader, Duration::zero(), initial_mode);
        feed.tick(Duration::zero(), |_| FeedResult::Accepted);
        feed.confirm_transmitted();

        if change_mode {
            feed.set_return_mode(InputReturnMode::CrLf);
        } else {
            feed.reader_mut().stop();
            feed.seek(1).expect("manual seek to LF");
            assert!(feed.reader_mut().start());
        }

        let mut emitted = Vec::new();
        feed.tick(reader_feed_interval(), |emission| {
            emitted.extend_from_slice(emission.as_slice());
            FeedResult::Accepted
        });
        assert_eq!(emitted, b"\r\n");
    }
}

#[test]
fn pacing_and_backpressure_are_lossless_with_one_pending_byte() {
    let mut reader = TapeReader::new(ReaderOptions {
        skip_leading_nulls: false,
        auto_stop: false,
        ..ReaderOptions::default()
    });
    reader.load(PaperTape::new((0_u8..32).collect()));
    assert!(reader.start());
    let mut feed = ReaderFeed::new(reader, Duration::zero(), InputReturnMode::Cr);
    let mut accepted = Vec::new();
    let mut reject = true;
    let mut now = Duration::zero();
    while feed.reader().state() == ReaderState::Running || feed.pending_count() > 0 {
        let delay = feed.tick(now, |emission| {
            if reject {
                reject = false;
                FeedResult::Backpressured(emission)
            } else {
                reject = true;
                accepted.extend_from_slice(emission.as_slice());
                FeedResult::Accepted
            }
        });
        if feed.awaiting_confirmation() {
            feed.confirm_transmitted();
        }
        assert!(feed.pending_count() <= 1);
        now = now.saturating_add(delay.unwrap_or(reader_feed_interval()));
    }
    assert_eq!(accepted, (0_u8..32).collect::<Vec<_>>());
}

#[test]
fn stopped_reader_never_emits_pending_or_later_bytes() {
    let mut reader = TapeReader::new(ReaderOptions::default());
    reader.load(PaperTape::new(b"A\x80\x80".to_vec()));
    reader.start();
    let mut feed = ReaderFeed::new(reader, Duration::zero(), InputReturnMode::Cr);
    let mut emitted = Vec::new();
    feed.tick(Duration::zero(), |emission| {
        emitted.extend_from_slice(emission.as_slice());
        FeedResult::Accepted
    });
    feed.confirm_transmitted();
    feed.tick(Duration::from_millis(3), |emission| {
        emitted.extend_from_slice(emission.as_slice());
        FeedResult::Accepted
    });
    feed.confirm_transmitted();
    feed.tick(Duration::from_millis(6), |emission| {
        emitted.extend_from_slice(emission.as_slice());
        FeedResult::Accepted
    });
    assert_eq!(emitted, b"A\x80");
    assert_eq!(feed.reader().state(), ReaderState::Stopped);
}

#[test]
fn disconnected_pause_retains_exactly_one_pending_byte_without_busy_loop() {
    let mut reader = TapeReader::new(ReaderOptions {
        skip_leading_nulls: false,
        auto_stop: false,
        set_msb: false,
    });
    reader.load(PaperTape::new(b"ABC".to_vec()));
    assert!(reader.start());
    let mut feed = ReaderFeed::new(reader, Duration::zero(), InputReturnMode::Cr);
    assert_eq!(
        feed.tick(Duration::zero(), FeedResult::Backpressured),
        Some(Duration::from_millis(1))
    );
    feed.reader_mut().stop();
    assert_eq!(
        feed.tick(Duration::from_millis(1), |_| FeedResult::Accepted),
        None
    );
    assert_eq!(feed.pending_count(), 1);
    assert_eq!(feed.reader().position(), 1);
    feed.rollback_unconfirmed();
    assert_eq!(feed.pending_count(), 0);
    assert_eq!(feed.reader().position(), 0);
}

#[test]
fn confirmation_returns_emitted_byte_and_rollback_returns_nothing() {
    let mut reader = TapeReader::new(ReaderOptions {
        set_msb: true,
        ..ReaderOptions::default()
    });
    reader.load(PaperTape::new(b"A".to_vec()));
    assert!(reader.start());
    let mut feed = ReaderFeed::new(reader, Duration::zero(), InputReturnMode::Cr);
    feed.tick(Duration::zero(), |_| FeedResult::Accepted);
    assert_eq!(
        feed.confirm_transmitted(),
        Some(ConfirmedReaderByte {
            byte: 0xc1,
            source_offset: 0
        })
    );

    feed.reader_mut().stop();
    assert!(feed.rewind());
    assert!(feed.reader_mut().start());
    feed.tick(reader_feed_interval(), |_| FeedResult::Accepted);
    feed.rollback_unconfirmed();
    assert_eq!(feed.confirm_transmitted(), None);
    assert_eq!(feed.reader().position(), 0);
}

#[test]
fn seek_requires_stopped_reader_and_rolls_back_pending_byte() {
    let mut reader = TapeReader::new(ReaderOptions {
        skip_leading_nulls: false,
        auto_stop: false,
        set_msb: false,
    });
    reader.load(PaperTape::new(b"ABCDEF".to_vec()));
    assert!(reader.start());
    let mut feed = ReaderFeed::new(reader, Duration::zero(), InputReturnMode::Cr);
    feed.tick(Duration::zero(), FeedResult::Backpressured);
    assert_eq!(feed.pending_count(), 1);
    assert!(feed.seek(3).is_err());
    assert_eq!(feed.reader().position(), 1);
    feed.reader_mut().stop();
    feed.seek(3).expect("stopped feed can seek safely");
    assert_eq!(feed.pending_count(), 0);
    assert_eq!(feed.reader().position(), 3);
    assert!(feed.reader_mut().start());
    let mut emitted = Vec::new();
    let mut now = reader_feed_interval();
    while feed.reader().state() == ReaderState::Running || feed.pending_count() != 0 {
        feed.tick(now, |emission| {
            emitted.extend_from_slice(emission.as_slice());
            FeedResult::Accepted
        });
        feed.confirm_transmitted();
        now = now.saturating_add(reader_feed_interval());
    }
    assert_eq!(emitted, b"DEF");
}

#[test]
fn normalization_helper_covers_raw_cr_lf_crlf_adjacency_and_msb() {
    for byte in [b'A', b'\r', b'\n', 0x8d, 0x8a] {
        assert_eq!(
            normalize_reader_emission(byte, 4, None, None, InputReturnMode::Cr),
            ([byte, 0], 1),
            "RAW preserves {byte:#04x}"
        );
    }
    assert_eq!(
        normalize_reader_emission(b'\r', 4, Some(b'A'), None, InputReturnMode::CrLf),
        (*b"\r\n", 2)
    );
    assert_eq!(
        normalize_reader_emission(0x8d, 4, Some(b'A'), None, InputReturnMode::CrLf),
        ([0x8d, 0x8a], 2)
    );
    assert_eq!(
        normalize_reader_emission(b'\r', 4, Some(b'\n'), None, InputReturnMode::CrLf),
        ([b'\r', 0], 1)
    );
    assert_eq!(
        normalize_reader_emission(b'\n', 4, None, None, InputReturnMode::CrLf),
        (*b"\r\n", 2)
    );
    assert_eq!(
        normalize_reader_emission(0x8a, 4, None, None, InputReturnMode::CrLf),
        ([0x8d, 0x8a], 2)
    );
    let confirmed_cr = Some(ConfirmedReaderByte {
        byte: b'\r',
        source_offset: 3,
    });
    assert_eq!(
        normalize_reader_emission(b'\n', 4, None, confirmed_cr, InputReturnMode::CrLf),
        ([b'\n', 0], 1)
    );
    assert_eq!(
        normalize_reader_emission(b'\n', 5, None, confirmed_cr, InputReturnMode::CrLf),
        (*b"\r\n", 2),
        "non-adjacent confirmed CR cannot suppress normalization"
    );
    assert_eq!(
        normalize_reader_emission(b'\n', 4, None, None, InputReturnMode::CrLf),
        (*b"\r\n", 2),
        "seek-to-LF has no confirmed predecessor"
    );
    assert_eq!(
        normalize_reader_emission(b'\r', 4, Some(0x8a), None, InputReturnMode::CrLf),
        ([b'\r', 0], 1)
    );
}

#[test]
fn standalone_lf_retries_and_rolls_back_as_one_bounded_emission() {
    let mut reader = TapeReader::new(ReaderOptions {
        skip_leading_nulls: false,
        auto_stop: false,
        set_msb: true,
    });
    reader.load(PaperTape::new(b"\nA".to_vec()));
    assert!(reader.start());
    let mut feed = ReaderFeed::new(reader, Duration::zero(), InputReturnMode::CrLf);
    let mut first = None;
    feed.tick(Duration::zero(), |emission| {
        first = Some(emission);
        FeedResult::Backpressured(emission)
    });
    assert_eq!(first.expect("one emission").as_slice(), [0x8d, 0x8a]);
    assert_eq!(feed.pending_count(), 1);
    assert_eq!(feed.reader().position(), 1);
    let mut retried = Vec::new();
    feed.tick(Duration::from_millis(1), |emission| {
        retried.extend_from_slice(emission.as_slice());
        FeedResult::Accepted
    });
    assert_eq!(retried, [0x8d, 0x8a]);
    assert!(feed.awaiting_confirmation());
    feed.rollback_unconfirmed();
    assert_eq!(feed.reader().position(), 0);
    assert_eq!(feed.pending_count(), 0);
    let mut after_rollback = Vec::new();
    feed.tick(Duration::from_millis(4), |emission| {
        after_rollback.extend_from_slice(emission.as_slice());
        FeedResult::Accepted
    });
    assert_eq!(after_rollback, [0x8d, 0x8a]);
    assert_eq!(
        feed.confirm_transmitted().map(|value| value.source_offset),
        Some(0)
    );
}

#[test]
fn reader_route_needs_the_connection_only_in_line_mode() {
    assert!(reader_route_available(CommunicationMode::Local, false));
    assert!(reader_route_available(CommunicationMode::Local, true));
    assert!(reader_route_available(CommunicationMode::Line, true));
    assert!(!reader_route_available(CommunicationMode::Line, false));
}

#[test]
fn runtime_answers_drive_the_feed_and_confirmation() {
    let mut reader = TapeReader::new(ReaderOptions::default());
    reader.load(PaperTape::new(b"AB".to_vec()));
    reader.start();
    let mut feed = ReaderFeed::new(reader, Duration::zero(), InputReturnMode::Cr);
    let mut stop = false;
    feed.tick(Duration::zero(), |emission| {
        let refused: Result<ImmediateTransmit, RuntimeError<String>> =
            Ok(ImmediateTransmit::Disconnected(emission.as_slice().to_vec()));
        let (result, halt) = feed_answer(&refused, emission);
        stop = halt;
        result
    });
    assert!(stop);
    assert_eq!(feed.pending_count(), 1);
    feed.stop_for_missing_route();
    assert_eq!(feed.reader().state(), ReaderState::Stopped);
    assert!(!feed.confirm_if_delivered(true, true));

    let mut reader = TapeReader::new(ReaderOptions::default());
    reader.load(PaperTape::new(b"AB".to_vec()));
    reader.start();
    let mut feed = ReaderFeed::new(reader, Duration::zero(), InputReturnMode::Cr);
    feed.tick(Duration::zero(), |emission| {
        let taken: Result<ImmediateTransmit, RuntimeError<String>> = Ok(ImmediateTransmit::Accepted);
        let (result, halt) = feed_answer(&taken, emission);
        assert!(!halt);
        result
    });
    assert!(feed.awaiting_confirmation());
    assert!(!feed.confirm_if_delivered(false, true));
    assert!(!feed.confirm_if_delivered(true, false));
    assert!(feed.confirm_if_delivered(true, true));
    assert!(!feed.awaiting_confirmation());
}
