//! Stream-safe filtering of ANSI CSI and OSC escape sequences.

use vstd::prelude::*;

verus! {

/// Position of the filter inside an escape sequence.
#[derive(Clone, Copy, Debug, Eq, PartialEq, Structural)]
pub enum EscapeState {
    Ground,
    Escape,
    Csi,
    Osc,
    OscEscape,
}

/// One byte of the filter: the next state and the byte that passes through, if any.
pub open spec fn escape_step(state: EscapeState, byte: u8) -> (EscapeState, Option<u8>) {
    match state {
        EscapeState::Ground => if byte == 0x1b {
            (EscapeState::Escape, None)
        } else {
            (EscapeState::Ground, Some(byte))
        },
        EscapeState::Escape => if byte == 0x5b {
            (EscapeState::Csi, None)
        } else if byte == 0x5d {
            (EscapeState::Osc, None)
        } else {
            (EscapeState::Ground, None)
        },
        EscapeState::Csi => if 0x40 <= byte <= 0x7e {
            (EscapeState::Ground, None)
        } else {
            (EscapeState::Csi, None)
        },
        EscapeState::Osc => if byte == 0x07 {
            (EscapeState::Ground, None)
        } else if byte == 0x1b {
            (EscapeState::OscEscape, None)
        } else {
            (EscapeState::Osc, None)
        },
        EscapeState::OscEscape => if byte == 0x5c {
            (EscapeState::Ground, None)
        } else {
            (EscapeState::Osc, None)
        },
    }
}

/// The filter run over a whole byte sequence: final state and the bytes that pass.
pub open spec fn escape_run(state: EscapeState, data: Seq<u8>) -> (EscapeState, Seq<u8>)
    decreases data.len(),
{
    if data.len() == 0 {
        (state, Seq::empty())
    } else {
        let (mid, out) = escape_run(state, data.drop_last());
        let (next, passed) = escape_step(mid, data.last());
        (
            next,
            match passed {
                Some(b) => out.push(b),
                None => out,
            },
        )
    }
}

/// Compatibility filter used to make modern hosts usable with the ASR-33.
#[derive(Debug)]
pub struct EscapeFilter {
    state: EscapeState,
}

impl View for EscapeFilter {
    type V = EscapeState;

    closed spec fn view(&self) -> EscapeState {
        self.state
    }
}

impl Default for EscapeFilter {
    fn default() -> (filter: Self)
        ensures
            filter@ == EscapeState::Ground,
    {
        Self::new()
    }
}

impl EscapeFilter {
    pub fn new() -> (filter: Self)
        ensures
            filter@ == EscapeState::Ground,
    {
        EscapeFilter { state: EscapeState::Ground }
    }

    fn step(&mut self, byte: u8) -> (passed: Option<u8>)
        ensures
            (final(self)@, passed) == escape_step(old(self)@, byte),
    {
        match self.state {
            EscapeState::Ground => {
                if byte == 0x1b {
                    self.state = EscapeState::Escape;
                    None
                } else {
                    Some(byte)
                }
            },
            EscapeState::Escape => {
                self.state = if byte == 0x5b {
                    EscapeState::Csi
                } else if byte == 0x5d {
                    EscapeState::Osc
                } else {
                    EscapeState::Ground
                };
                None
            },
            EscapeState::Csi => {
                if 0x40 <= byte && byte <= 0x7e {
                    self.state = EscapeState::Ground;
                }
                None
            },
            EscapeState::Osc => {
                if byte == 0x07 {
                    self.state = EscapeState::Ground;
                } else if byte == 0x1b {
                    self.state = EscapeState::OscEscape;
                }
                None
            },
            EscapeState::OscEscape => {
                self.state = if byte == 0x5c {
                    EscapeState::Ground
                } else {
                    EscapeState::Osc
                };
                None
            },
        }
    }

    /// Consume a chunk and return the bytes not belonging to CSI/OSC or
    /// single-character escape sequences. State is retained between calls.
    pub fn feed(&mut self, data: &[u8]) -> (output: Vec<u8>)
        ensures
            (final(self)@, output@) == escape_run(old(self)@, data@),
    {
        let mut output: Vec<u8> = Vec::with_capacity(data.len());
        let mut i: usize = 0;
        while i < data.len()
            invariant
                i <= data@.len(),
                (self@, output@) == escape_run(old(self)@, data@.take(i as int)),
            decreases data@.len() - i,
        {
            let byte = data[i];
            proof {
                assert(data@.take(i + 1).drop_last() =~= data@.take(i as int));
            }
            match self.step(byte) {
                Some(b) => output.push(b),
                None => {},
            }
            i += 1;
        }
        assert(data@.take(data@.len() as int) =~= data@);
        output
    }
}

/// Feeding a stream in two chunks filters it exactly as feeding it at once.
pub proof fn lemma_escape_run_concat(state: EscapeState, first: Seq<u8>, second: Seq<u8>)
    ensures
        escape_run(state, first + second) == (
            escape_run(escape_run(state, first).0, second).0,
            escape_run(state, first).1 + escape_run(escape_run(state, first).0, second).1,
        ),
    decreases second.len(),
{
    if second.len() == 0 {
        assert(first + second =~= first);
        assert(escape_run(state, first).1 + Seq::<u8>::empty() =~= escape_run(state, first).1);
    } else {
        lemma_escape_run_concat(state, first, second.drop_last());
        assert((first + second).drop_last() =~= first + second.drop_last());
        assert((first + second).last() == second.last());
        let mid = escape_run(state, first);
        let rest = escape_run(mid.0, second.drop_last());
        let (next, passed) = escape_step(rest.0, second.last());
        match passed {
            Some(b) => {
                assert(mid.1 + rest.1.push(b) =~= (mid.1 + rest.1).push(b));
            },
            None => {},
        }
    }
}

/// Whether `a` is `b` with some bytes left out, the rest kept in order.
pub open spec fn is_subsequence(a: Seq<u8>, b: Seq<u8>) -> bool
    decreases b.len(),
{
    if a.len() == 0 {
        true
    } else if b.len() == 0 {
        false
    } else {
        (a.last() == b.last() && is_subsequence(a.drop_last(), b.drop_last())) || is_subsequence(
            a,
            b.drop_last(),
        )
    }
}

/// The filter only removes bytes: what passes is the input with some bytes left out,
/// in order, and never holds an ESC.
pub proof fn lemma_escape_run_filters(state: EscapeState, data: Seq<u8>)
    ensures
        is_subsequence(escape_run(state, data).1, data),
        forall|i: int|
            0 <= i < escape_run(state, data).1.len() ==> #[trigger] escape_run(state, data).1[i]
                != 0x1b,
    decreases data.len(),
{
    if data.len() > 0 {
        lemma_escape_run_filters(state, data.drop_last());
        let (mid, out) = escape_run(state, data.drop_last());
        let (next, passed) = escape_step(mid, data.last());
        match passed {
            Some(b) => {
                assert(out.push(b).drop_last() =~= out);
                assert(is_subsequence(out.push(b), data));
            },
            None => {
                if out.len() > 0 {
                    assert(is_subsequence(out, data));
                }
            },
        }
    }
}

} // verus!
