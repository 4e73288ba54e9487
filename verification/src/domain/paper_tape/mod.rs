//! Deterministic paper-tape reader and punch domain logic.

mod punch;
mod reader;
mod tape;

pub use punch::{
    PunchMode, PunchState, TapePunch, PunchView, punch_loaded, punch_after, lemma_punch_accumulates,
};
pub use reader::{
    ReaderOptions, ReaderState, ReaderStep, SeekError, StopCause, TapeReader, ReaderView, skip_nulls,
    reader_start, reader_step, read_steps, emitted_byte, reads_at, auto_stop_point,
    lemma_reader_reads_rest_of_tape, lemma_auto_stop_reads_through_first_trailer_byte,
};
pub use tape::{PaperTape, TrailerPositions, run_start, detect_trailers, lemma_run_start};
