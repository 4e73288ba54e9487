//! Deterministic ASR-33 terminal state and byte processing.

mod escape;
mod history;
mod machine;
mod parity;

pub use escape::{
    EscapeFilter, EscapeState, escape_step, escape_run, lemma_escape_run_concat, is_subsequence,
    lemma_escape_run_filters,
};
pub use parity::{
    encode_even_parity, mask_parity_bit, bit_of, ones8, even_parity_byte, lemma_even_parity_byte,
    lemma_mask_is_mod_128,
};
pub use history::{
    Line, LineHistory, LineView, HistoryView, blank_line, line_add_char, top_of, history_add_char,
    history_add_line, history_reset,
};
pub use machine::{
    Terminal, TerminalOptions, TerminalError, CharacterEvent, ReceiveEffects, TerminalView,
    is_legacy_printable_ascii, legacy_printable, tab_stop, advance_line, print_byte, finish_byte,
    process_byte, process_bytes, receive, lemma_receive_in_chunks, lemma_receive_failure, lemma_carriage_moves, failed_byte_state, receive_failure_state,
};
