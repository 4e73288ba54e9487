//! Immutable paper-tape bytes and trailer metadata.

use vstd::prelude::*;

verus! {

/// Start positions of contiguous trailer regions at the physical end of a tape.
#[derive(Clone, Copy, Debug, Eq, PartialEq, Structural)]
pub struct TrailerPositions {
    pub octal_200: Option<usize>,
    pub null: Option<usize>,
}

/// Start of the run of `value` bytes that ends at `end`.
pub open spec fn run_start(bytes: Seq<u8>, end: int, value: u8) -> int
    decreases end,
{
    if end > 0 && bytes[end - 1] == value {
        run_start(bytes, end - 1, value)
    } else {
        end
    }
}

/// The trailing NUL region, and the octal-200 region immediately before it.
pub open spec fn detect_trailers(bytes: Seq<u8>) -> TrailerPositions {
    let before_nulls = run_start(bytes, bytes.len() as int, 0);
    let before_octal_200 = run_start(bytes, before_nulls, 0x80);
    TrailerPositions {
        octal_200: if before_octal_200 < before_nulls {
            Some(before_octal_200 as usize)
        } else {
            None
        },
        null: if before_nulls < bytes.len() {
            Some(before_nulls as usize)
        } else {
            None
        },
    }
}

/// `run_start` is the smallest start from which every byte up to `end` equals `value`.
pub proof fn lemma_run_start(bytes: Seq<u8>, end: int, value: u8)
    requires
        0 <= end <= bytes.len(),
    ensures
        0 <= run_start(bytes, end, value) <= end,
        forall|i: int| run_start(bytes, end, value) <= i < end ==> bytes[i] == value,
        run_start(bytes, end, value) == 0 || bytes[run_start(bytes, end, value) - 1] != value,
    decreases end,
{
    if end > 0 && bytes[end - 1] == value {
        lemma_run_start(bytes, end - 1, value);
    }
}

fn find_run_start(bytes: &Vec<u8>, end: usize, value: u8) -> (start: usize)
    requires
        end <= bytes@.len(),
    ensures
        start == run_start(bytes@, end as int, value),
        start <= end,
{
    let mut start = end;
    while start > 0 && bytes[start - 1] == value
        invariant
            start <= end <= bytes@.len(),
            run_start(bytes@, start as int, value) == run_start(bytes@, end as int, value),
        decreases start,
    {
        start -= 1;
    }
    start
}

/// An immutable loaded paper tape.
#[derive(Clone, Debug)]
pub struct PaperTape {
    bytes: Vec<u8>,
    trailers: TrailerPositions,
}

impl View for PaperTape {
    type V = Seq<u8>;

    closed spec fn view(&self) -> Seq<u8> {
        self.bytes@
    }
}

impl PaperTape {
    /// The stored trailer positions are those of the bytes.
    pub closed spec fn wf(&self) -> bool {
        self.trailers == detect_trailers(self.bytes@)
    }

    pub fn new(bytes: Vec<u8>) -> (tape: Self)
        ensures
            tape@ == bytes@,
            tape.wf(),
    {
        let before_nulls = find_run_start(&bytes, bytes.len(), 0);
        let before_octal_200 = find_run_start(&bytes, before_nulls, 0x80);
        proof {
            lemma_run_start(bytes@, bytes@.len() as int, 0);
        }
        let trailers = TrailerPositions {
            octal_200: if before_octal_200 < before_nulls {
                Some(before_octal_200)
            } else {
                None
            },
            null: if before_nulls < bytes.len() {
                Some(before_nulls)
            } else {
                None
            },
        };
        PaperTape { bytes, trailers }
    }

    pub fn bytes(&self) -> (bytes: &[u8])
        ensures
            bytes@ == self@,
    {
        self.bytes.as_slice()
    }

    pub fn len(&self) -> (n: usize)
        ensures
            n == self@.len(),
    {
        self.bytes.len()
    }

    pub fn is_empty(&self) -> (empty: bool)
        ensures
            empty == (self@.len() == 0),
    {
        self.bytes.len() == 0
    }

    pub fn trailers(&self) -> (trailers: TrailerPositions)
        requires
            self.wf(),
        ensures
            trailers == detect_trailers(self@),
    {
        self.trailers
    }

    /// The byte at `index`.
    pub fn byte_at(&self, index: usize) -> (b: u8)
        requires
            index < self@.len(),
        ensures
            b == self@[index as int],
    {
        self.bytes[index]
    }
}

} // verus!
