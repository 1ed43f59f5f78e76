//! The steps of saving a value to its file and of loading it back, and what
//! each failure leads to.
//!
//! Saving creates the directory and all its missing ancestors, creates (or
//! truncates) the file, restricts the file to its owner, and writes the
//! value's text. A failure to create the directory or the file ends the save;
//! a failure to restrict the permissions is reported and the write goes on.
//! Loading reads the file and decodes its text; a file that cannot be opened,
//! read or decoded yields no value.
use vstd::prelude::*;

use crate::entity::{DecodeError, DiskEntity};

verus! {

/// A step of saving a value, in the order in which they are taken.
#[derive(Clone, Copy, Debug, PartialEq, Eq, Structural)]
pub enum SaveStep {
    /// Create the directory and all its missing ancestors.
    CreateDir,
    /// Create the file, or truncate it where it exists.
    CreateFile,
    /// Restrict the file to its owner: read and write, no execute.
    RestrictPermissions,
    /// Write the value's text to the file.
    Write,
}

/// A failure that stops a save short of writing the value.
#[derive(Clone, Copy, Debug, PartialEq, Eq, Structural)]
pub enum SaveError {
    /// The directory could not be created; no file was touched.
    CreateDir,
    /// The file could not be created.
    CreateFile,
    /// Writing the value's text failed.
    Write,
}

/// How a save ended.
#[derive(Clone, Copy, Debug, PartialEq, Eq)]
pub struct SaveReport {
    /// Whether the value was written, or the failure that stopped it.
    pub result: Result<(), SaveError>,
    /// Whether the file was restricted to its owner.
    pub permissions_restricted: bool,
}

/// The report of a save whose steps succeed or fail as the four flags say,
/// in the order of the steps.
pub open spec fn save_outcome(dir_ok: bool, file_ok: bool, perms_ok: bool, write_ok: bool) -> SaveReport {
    if !dir_ok {
        SaveReport { result: Err(SaveError::CreateDir), permissions_restricted: false }
    } else if !file_ok {
        SaveReport { result: Err(SaveError::CreateFile), permissions_restricted: false }
    } else {
        SaveReport {
            result: if write_ok {
                Ok(())
            } else {
                Err(SaveError::Write)
            },
            permissions_restricted: perms_ok,
        }
    }
}

/// Where a save stands: the step to take next, and whether the permissions
/// have been restricted so far.
#[derive(Clone, Copy, Debug, PartialEq, Eq, Structural)]
pub struct SaveProgress {
    pub step: SaveStep,
    pub permissions_restricted: bool,
}

/// What one step's outcome leads to: the progress after it, and the report
/// where the save has ended.
pub open spec fn save_transition(p: SaveProgress, succeeded: bool) -> (SaveProgress, Option<SaveReport>) {
    match p.step {
        SaveStep::CreateDir => if succeeded {
            (SaveProgress { step: SaveStep::CreateFile, ..p }, None)
        } else {
            (p, Some(SaveReport { result: Err(SaveError::CreateDir), permissions_restricted: false }))
        },
        SaveStep::CreateFile => if succeeded {
            (SaveProgress { step: SaveStep::RestrictPermissions, ..p }, None)
        } else {
            (p, Some(SaveReport { result: Err(SaveError::CreateFile), permissions_restricted: false }))
        },
        SaveStep::RestrictPermissions => (
            SaveProgress { step: SaveStep::Write, permissions_restricted: succeeded },
            None,
        ),
        SaveStep::Write => (
            p,
            Some(
                SaveReport {
                    result: if succeeded {
                        Ok(())
                    } else {
                        Err(SaveError::Write)
                    },
                    permissions_restricted: p.permissions_restricted,
                },
            ),
        ),
    }
}

impl SaveProgress {
    /// A save that has taken no step yet.
    pub fn new() -> (r: SaveProgress)
        ensures
            r == (SaveProgress { step: SaveStep::CreateDir, permissions_restricted: false }),
    {
        SaveProgress { step: SaveStep::CreateDir, permissions_restricted: false }
    }

    /// Records the outcome of the current step. Returns the report where the
    /// save has ended; otherwise `self.step` is the step to take next.
    pub fn advance(&mut self, succeeded: bool) -> (r: Option<SaveReport>)
        ensures
            (*final(self), r) == save_transition(*old(self), succeeded),
    {
        match self.step {
            SaveStep::CreateDir => {
                if succeeded {
                    self.step = SaveStep::CreateFile;
                    None
                } else {
                    Some(SaveReport { result: Err(SaveError::CreateDir), permissions_restricted: false })
                }
            },
            SaveStep::CreateFile => {
                if succeeded {
                    self.step = SaveStep::RestrictPermissions;
                    None
                } else {
                    Some(SaveReport { result: Err(SaveError::CreateFile), permissions_restricted: false })
                }
            },
            SaveStep::RestrictPermissions => {
                self.step = SaveStep::Write;
                self.permissions_restricted = succeeded;
                None
            },
            SaveStep::Write => {
                let result = if succeeded {
                    Ok(())
                } else {
                    Err(SaveError::Write)
                };
                Some(SaveReport { result, permissions_restricted: self.permissions_restricted })
            },
        }
    }
}

/// The report that a save reaches from `p` when its steps have the outcomes
/// `outcomes`, one per step taken, or `None` where they run out first.
pub open spec fn run_save(p: SaveProgress, outcomes: Seq<bool>) -> Option<SaveReport>
    decreases outcomes.len(),
{
    if outcomes.len() == 0 {
        None
    } else {
        let (next, report) = save_transition(p, outcomes[0]);
        match report {
            Some(r) => Some(r),
            None => run_save(next, outcomes.skip(1)),
        }
    }
}

/// A save that starts at the directory and meets the four outcomes in turn
/// ends with the report that `save_outcome` gives: the directory is created
/// before the file, a failure of either stops the save, the permissions are
/// restricted before the text is written, and only a failed write (or an
/// earlier stop) keeps the result from `Ok`.
pub proof fn lemma_save_run(dir_ok: bool, file_ok: bool, perms_ok: bool, write_ok: bool)
    ensures
        run_save(
            SaveProgress { step: SaveStep::CreateDir, permissions_restricted: false },
            seq![dir_ok, file_ok, perms_ok, write_ok],
        ) == Some(save_outcome(dir_ok, file_ok, perms_ok, write_ok)),
        save_outcome(true, true, true, true) == (SaveReport {
            result: Ok(()),
            permissions_restricted: true,
        }),
{
    let s = seq![dir_ok, file_ok, perms_ok, write_ok];
    assert(s.skip(1) =~= seq![file_ok, perms_ok, write_ok]);
    assert(s.skip(1).skip(1) =~= seq![perms_ok, write_ok]);
    assert(s.skip(1).skip(1).skip(1) =~= seq![write_ok]);
    reveal_with_fuel(run_save, 5);
}

/// A failure that leaves loading without a value.
#[derive(Clone, Copy, Debug, PartialEq, Eq, Structural)]
pub enum LoadError {
    /// The file could not be opened; most often it does not exist yet.
    Open,
    /// The file could not be read as text.
    Read,
    /// The text of the file does not decode to a value.
    Decode(DecodeError),
}

/// How loudly a failure is reported.
#[derive(Clone, Copy, Debug, PartialEq, Eq, Structural)]
pub enum Severity {
    /// An expected outcome, such as a first run.
    Debug,
    /// Something went wrong.
    Warning,
}

impl LoadError {
    /// A missing file is expected and reported quietly; every other failure
    /// is a warning.
    pub fn severity(&self) -> (r: Severity)
        ensures
            r == (if *self is Open {
                Severity::Debug
            } else {
                Severity::Warning
            }),
    {
        match self {
            LoadError::Open => Severity::Debug,
            _ => Severity::Warning,
        }
    }
}

impl SaveError {
    /// Every failure of a save is a warning.
    pub fn severity(&self) -> (r: Severity)
        ensures
            r == Severity::Warning,
    {
        Severity::Warning
    }
}

/// The value that loading yields, given the text of the file, or `None` where
/// the file could not be opened or read.
pub open spec fn load_of<E: DiskEntity>(text: Option<Seq<char>>) -> Option<E> {
    match text {
        Some(s) => E::parse_repr(s),
        None => None,
    }
}

/// Turns the outcome of reading the file into the loaded value: a failure
/// to open or read it is handed on, and text that does not decode is a
/// `Decode` failure.
pub fn finish_load<E: DiskEntity>(read: Result<String, LoadError>) -> (r: Result<E, LoadError>)
    ensures
        match read {
            Err(e) => r == Err::<E, LoadError>(e),
            Ok(s) => match E::parse_repr(s@) {
                Some(v) => r == Ok::<E, LoadError>(v),
                None => r is Err && r->Err_0 is Decode,
            },
        },
{
    match read {
        Err(e) => Err(e),
        Ok(s) => match E::from_repr(s.as_str()) {
            Ok(v) => Ok(v),
            Err(e) => Err(LoadError::Decode(e)),
        },
    }
}

/// The value that loading yields, with every failure taken as absence.
pub fn load_value<E: DiskEntity>(read: Result<String, LoadError>) -> (r: Option<E>)
    ensures
        r == load_of::<E>(
            match read {
                Ok(s) => Some(s@),
                Err(_) => None,
            },
        ),
{
    match finish_load::<E>(read) {
        Ok(v) => Some(v),
        Err(_) => None,
    }
}

/// Saving and then loading gives the value back: the text that a save writes
/// decodes to the value that was saved.
pub proof fn lemma_load_after_save<E: DiskEntity>(v: E)
    ensures
        load_of::<E>(Some(v.repr_of())) == Some(v),
{
    v.lemma_repr_round_trip();
}

/// Saving the same value twice leaves the same text in the file, and that
/// text still loads as the value.
pub proof fn lemma_save_twice<E: DiskEntity>(first: E, second: E)
    requires
        first == second,
    ensures
        second.repr_of() == first.repr_of(),
        load_of::<E>(Some(second.repr_of())) == Some(first),
{
    first.lemma_repr_round_trip();
}

/// A file that cannot be opened or read, and a file whose text does not
/// decode, yield no value.
pub proof fn lemma_load_absent_or_corrupt<E: DiskEntity>(text: Seq<char>)
    requires
        E::parse_repr(text) is None,
    ensures
        load_of::<E>(None) is None,
        load_of::<E>(Some(text)) is None,
{
}

} // verus!
