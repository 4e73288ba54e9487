//! In-memory paper-tape punch state and append/overwrite semantics.

use vstd::prelude::*;

verus! {

#[derive(Clone, Copy, Debug, Eq, PartialEq, Structural)]
pub enum PunchMode {
    Append,
    Overwrite,
}

#[derive(Clone, Copy, Debug, Eq, PartialEq, Structural)]
pub enum PunchState {
    Unloaded,
    Stopped,
    Running,
}

/// Abstract punch: write mode, switch state and the tape punched so far.
pub struct PunchView {
    pub mode: PunchMode,
    pub state: PunchState,
    pub bytes: Option<Seq<u8>>,
}

/// The punch after loading an existing tape: Append keeps its bytes, Overwrite
/// starts from blank tape; either way the punch is loaded and stopped.
pub open spec fn punch_loaded(v: PunchView, existing: Seq<u8>) -> PunchView {
    PunchView {
        mode: v.mode,
        state: PunchState::Stopped,
        bytes: Some(
            match v.mode {
                PunchMode::Append => existing,
                PunchMode::Overwrite => Seq::empty(),
            },
        ),
    }
}

/// The punch after `data` is offered: a running punch adds it to the tape.
pub open spec fn punch_after(v: PunchView, data: Seq<u8>) -> PunchView {
    if v.state != PunchState::Running {
        v
    } else {
        match v.bytes {
            Some(b) => PunchView { bytes: Some(b + data), ..v },
            None => PunchView { state: PunchState::Unloaded, ..v },
        }
    }
}

/// Punching `a` and then `b` leaves the tape as punching `a + b` at once; in
/// Append mode a loaded tape keeps its bytes ahead of everything punched.
pub proof fn lemma_punch_accumulates(v: PunchView, existing: Seq<u8>, a: Seq<u8>, b: Seq<u8>)
    ensures
        punch_after(punch_after(v, a), b) == punch_after(v, a + b),
        v.mode == PunchMode::Append ==> punch_after(
            PunchView { state: PunchState::Running, ..punch_loaded(v, existing) },
            a,
        ).bytes == Some(existing + a),
        v.mode == PunchMode::Overwrite ==> punch_after(
            PunchView { state: PunchState::Running, ..punch_loaded(v, existing) },
            a,
        ).bytes == Some(a),
{
    match v.bytes {
        Some(t) => {
            assert(t + a + b =~= t + (a + b));
        },
        None => {},
    }
    assert(Seq::<u8>::empty() + a =~= a);
}

#[derive(Clone, Debug)]
pub struct TapePunch {
    mode: PunchMode,
    state: PunchState,
    bytes: Option<Vec<u8>>,
}

impl View for TapePunch {
    type V = PunchView;

    closed spec fn view(&self) -> PunchView {
        PunchView {
            mode: self.mode,
            state: self.state,
            bytes: match self.bytes {
                Some(b) => Some(b@),
                None => None,
            },
        }
    }
}

impl TapePunch {
    pub fn new(mode: PunchMode) -> (punch: Self)
        ensures
            punch@ == (PunchView { mode, state: PunchState::Unloaded, bytes: None }),
    {
        TapePunch { mode, state: PunchState::Unloaded, bytes: None }
    }

    pub fn mode(&self) -> (mode: PunchMode)
        ensures
            mode == self@.mode,
    {
        self.mode
    }

    /// Changing the mode never rewrites a tape that is already loaded.
    pub fn set_mode(&mut self, mode: PunchMode)
        ensures
            final(self)@ == (PunchView { mode, ..old(self)@ }),
    {
        self.mode = mode;
    }

    pub fn toggle_mode(&mut self)
        ensures
            final(self)@ == (PunchView {
                mode: match old(self)@.mode {
                    PunchMode::Append => PunchMode::Overwrite,
                    PunchMode::Overwrite => PunchMode::Append,
                },
                ..old(self)@
            }),
    {
        self.mode = match self.mode {
            PunchMode::Append => PunchMode::Overwrite,
            PunchMode::Overwrite => PunchMode::Append,
        };
    }

    pub fn state(&self) -> (state: PunchState)
        ensures
            state == self@.state,
    {
        self.state
    }

    /// Load the current storage contents according to the selected write mode.
    pub fn load(&mut self, existing: &[u8])
        ensures
            final(self)@ == punch_loaded(old(self)@, existing@),
    {
        self.bytes = Some(
            match self.mode {
                PunchMode::Append => crate::util::copy_bytes(existing),
                PunchMode::Overwrite => Vec::new(),
            },
        );
        self.state = PunchState::Stopped;
        proof {
            if old(self)@.mode == PunchMode::Overwrite {
                assert(self@.bytes->Some_0 =~= Seq::<u8>::empty());
            }
        }
    }

    pub fn bytes(&self) -> (bytes: Option<&[u8]>)
        ensures
            match bytes {
                Some(b) => self@.bytes == Some(b@),
                None => self@.bytes is None,
            },
    {
        match &self.bytes {
            Some(b) => Some(b.as_slice()),
            None => None,
        }
    }

    pub fn start(&mut self) -> (started: bool)
        ensures
            started == old(self)@.bytes is Some,
            final(self)@ == if started {
                PunchView { state: PunchState::Running, ..old(self)@ }
            } else {
                old(self)@
            },
    {
        if self.bytes.is_none() {
            return false;
        }
        self.state = PunchState::Running;
        true
    }

    pub fn stop(&mut self)
        ensures
            final(self)@ == if old(self)@.bytes is Some {
                PunchView { state: PunchState::Stopped, ..old(self)@ }
            } else {
                old(self)@
            },
    {
        if self.bytes.is_some() {
            self.state = PunchState::Stopped;
        }
    }

    /// Add bytes when the punch is loaded and running.
    pub fn punch(&mut self, data: &[u8]) -> (punched: bool)
        ensures
            punched == (old(self)@.state == PunchState::Running && old(self)@.bytes is Some),
            final(self)@ == punch_after(old(self)@, data@),
    {
        match self.state {
            PunchState::Running => {},
            _ => {
                return false;
            },
        }
        match self.bytes.take() {
            Some(mut bytes) => {
                let mut i: usize = 0;
                let ghost start = bytes@;
                while i < data.len()
                    invariant
                        i <= data@.len(),
                        bytes@ == start + data@.take(i as int),
                    decreases data@.len() - i,
                {
                    bytes.push(data[i]);
                    assert(data@.take(i + 1) =~= data@.take(i as int).push(data@[i as int]));
                    assert(start + data@.take(i + 1) =~= (start + data@.take(i as int)).push(
                        data@[i as int],
                    ));
                    i += 1;
                }
                assert(data@.take(data@.len() as int) =~= data@);
                self.bytes = Some(bytes);
                true
            },
            None => {
                self.state = PunchState::Unloaded;
                false
            },
        }
    }

    /// Unload and return the complete bytes that storage should persist.
    pub fn unload(&mut self) -> (bytes: Option<Vec<u8>>)
        ensures
            final(self)@ == (PunchView { state: PunchState::Unloaded, bytes: None, ..old(self)@ }),
            match bytes {
                Some(b) => old(self)@.bytes == Some(b@),
                None => old(self)@.bytes is None,
            },
    {
        self.state = PunchState::Unloaded;
        self.bytes.take()
    }
}

} // verus!
