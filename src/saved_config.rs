use vstd::prelude::*;
use crate::worker::valid_rate;

verus! {

/// Why preferences could not be read or written.
#[derive(Clone, Copy, Debug, PartialEq, Eq, Structural)]
pub enum Error {
    GetDirError,
    IoError,
    SerdeError,
}

impl Error {
    /// A short description of the failure.
    pub fn message(&self) -> (r: &'static str)
        ensures
            r@ == error_message(*self),
    {
        match self {
            Error::GetDirError => "cannot get proper configuration dir of this OS",
            Error::IoError => "failed to get data from file",
            Error::SerdeError => "failed to ser/de",
        }
    }
}

pub open spec fn error_message(e: Error) -> Seq<char> {
    match e {
        Error::GetDirError => "cannot get proper configuration dir of this OS"@,
        Error::IoError => "failed to get data from file"@,
        Error::SerdeError => "failed to ser/de"@,
    }
}

/// The user's preferences: the hotkey by its key name, the click rate in
/// clicks per second, and whether the window stays on top.
#[derive(Debug)]
pub struct SavedState {
    pub key_bind: String,
    pub freq: u64,
    pub always_on_top: bool,
}

/// Name of the hotkey bound when nothing was saved.
pub open spec fn default_key() -> Seq<char> {
    "F5"@
}

/// Click rate when nothing was saved.
pub const DEFAULT_FREQ: u64 = 10;

impl SavedState {
    /// A record whose rate lies in `1..=100`.
    pub open spec fn wf(&self) -> bool {
        valid_rate(self.freq as int)
    }

    /// The record used when none was saved: `{F5, 10, true}`.
    pub open spec fn is_default(&self) -> bool {
        self.key_bind@ == default_key() && self.freq == DEFAULT_FREQ && self.always_on_top
    }

    /// Builds a record from decoded fields; a rate outside `1..=100` is a
    /// malformed record.
    pub fn checked(key_bind: String, freq: u64, always_on_top: bool) -> (r: Result<
        SavedState,
        Error,
    >)
        ensures
            valid_rate(freq as int) <==> r is Ok,
            r is Ok ==> (r->Ok_0 == SavedState { key_bind, freq, always_on_top }),
            r is Err ==> r->Err_0 == Error::SerdeError,
    {
        if 1 <= freq && freq <= 100 {
            Ok(SavedState { key_bind, freq, always_on_top })
        } else {
            Err(Error::SerdeError)
        }
    }

    /// A copy of the record.
    pub fn duplicate(&self) -> (r: SavedState)
        ensures
            r == *self,
    {
        SavedState {
            key_bind: self.key_bind.clone(),
            freq: self.freq,
            always_on_top: self.always_on_top,
        }
    }
}

impl Default for SavedState {
    fn default() -> (r: Self)
        ensures
            r.is_default(),
            r.wf(),
    {
        proof {
            reveal_strlit("F5");
        }
        SavedState { key_bind: "F5".to_owned(), freq: DEFAULT_FREQ, always_on_top: true }
    }
}

/// The record that a load result yields, if any: a valid saved record.
pub open spec fn accepted(loaded: Result<Option<SavedState>, Error>) -> Option<SavedState> {
    match loaded {
        Ok(Some(s)) => if s.wf() {
            Some(s)
        } else {
            None
        },
        _ => None,
    }
}

/// The preferences to start with: the loaded record when it is there and
/// valid, else the defaults (a missing, unreadable or malformed file never
/// stops the start).
pub fn config_or_default(loaded: Result<Option<SavedState>, Error>) -> (r: SavedState)
    ensures
        r.wf(),
        accepted(loaded) is Some ==> r == accepted(loaded)->Some_0,
        accepted(loaded) is None ==> r.is_default(),
{
    match loaded {
        Ok(Some(s)) => {
            if 1 <= s.freq && s.freq <= 100 {
                s
            } else {
                SavedState::default()
            }
        },
        _ => SavedState::default(),
    }
}

/// A valid record that is loaded back as it was saved is the record the
/// engine starts from, unchanged.
pub proof fn lemma_valid_record_kept(p: SavedState)
    requires
        p.wf(),
    ensures
        accepted(Ok(Some(p))) == Some(p),
{
}

} // verus!
