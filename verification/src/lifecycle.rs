//! The life of a cache file: what to do with the outcome of each operation
//! on it. The caller performs the operations; the decisions are made here.
//!
//! Ages are in nanoseconds.

use crate::error::{Error, IoKind};
use crate::version_file::{VersionFile, VersionFileView};
use vstd::prelude::*;
use vstd::string::*;

verus! {

/// What the freshness check does after the file's metadata was asked for.
#[derive(Debug, PartialEq, Eq)]
pub enum AgeStep {
    /// The file is missing: write these contents to it, then report the
    /// outcome of the write to [`VersionFile::seeded`].
    Seed(String),
    /// The check is over, with this age or this error.
    Done(Result<u128, Error>),
}

/// A step of the freshness check as the contracts see it.
pub enum AgeStepView {
    Seed(Seq<char>),
    Done(Result<u128, Error>),
}

impl View for AgeStep {
    type V = AgeStepView;

    open spec fn view(&self) -> AgeStepView {
        match self {
            AgeStep::Seed(contents) => AgeStepView::Seed(contents@),
            AgeStep::Done(r) => AgeStepView::Done(*r),
        }
    }
}

/// An operation's failure is reported as `Error::Io` with its kind; its
/// success is handed on unchanged.
pub open spec fn reported<T>(outcome: Result<T, IoKind>) -> Result<T, Error> {
    match outcome {
        Ok(value) => Ok(value),
        Err(kind) => Err(Error::Io(kind)),
    }
}

/// The freshness check, given what the metadata of the file said: the time
/// since the last write (`Ok(Some(..))`), that there is a file whose time of
/// writing cannot be told or lies in the future (`Ok(None)`), or why there
/// is no answer (`Err(..)`).
///
/// A missing file is no error: it is seeded. A file of unknown age counts as
/// just written. Every other failure is reported.
pub open spec fn age_step(entry: VersionFileView, stat: Result<Option<u128>, IoKind>) -> AgeStepView {
    match stat {
        Ok(Some(elapsed)) => AgeStepView::Done(Ok(elapsed)),
        Ok(None) => AgeStepView::Done(Ok(0)),
        Err(IoKind::NotFound) => AgeStepView::Seed(entry.version),
        Err(kind) => AgeStepView::Done(Err(Error::Io(kind))),
    }
}

/// The end of the freshness check after seeding: age zero if the seed was
/// written, the failure if it was not.
pub open spec fn seeded(written: Result<(), IoKind>) -> Result<u128, Error> {
    match written {
        Ok(_) => Ok(0),
        Err(kind) => Err(Error::Io(kind)),
    }
}

/// Recreating goes on to write `version` only if the old file was deleted.
pub open spec fn recreate_step(removed: Result<(), IoKind>, version: Seq<char>) -> Result<
    Seq<char>,
    Error,
> {
    match removed {
        Ok(_) => Ok(version),
        Err(kind) => Err(Error::Io(kind)),
    }
}

/// Whether a cache of this age is due for a fresh lookup: its age exceeds
/// the interval, or it is zero, as on the first run.
pub open spec fn stale(age: u128, interval: u128) -> bool {
    age == 0 || age > interval
}

/// The view of an outcome that carries text.
pub open spec fn text(r: Result<String, Error>) -> Result<Seq<char>, Error> {
    match r {
        Ok(s) => Ok(s@),
        Err(e) => Err(e),
    }
}

/// The view of an operation's outcome that carries text.
pub open spec fn raw_text(r: Result<String, IoKind>) -> Result<Seq<char>, IoKind> {
    match r {
        Ok(s) => Ok(s@),
        Err(kind) => Err(kind),
    }
}

/// Whether a cache of age `age` is stale under `interval`, both in
/// nanoseconds. Age zero is always stale, so the first run looks the
/// version up; after that a cache is stale once it is older than the
/// interval.
pub fn is_stale(age: u128, interval: u128) -> (r: bool)
    ensures
        r == stale(age, interval),
        age == 0 ==> r,
{
    age == 0 || age > interval
}

impl VersionFile {
    /// Decides the freshness check from the metadata of the cache file.
    /// `stat` is `Ok(Some(elapsed))` with the nanoseconds since the file was
    /// last written, `Ok(None)` if the file is there but that time is unknown
    /// or in the future, and `Err(kind)` if the metadata could not be had.
    pub fn last_modified(&self, stat: Result<Option<u128>, IoKind>) -> (step: AgeStep)
        ensures
            step@ == age_step(self@, stat),
    {
        match stat {
            Ok(Some(elapsed)) => AgeStep::Done(Ok(elapsed)),
            Ok(None) => AgeStep::Done(Ok(0)),
            Err(IoKind::NotFound) => AgeStep::Seed(String::from_str(self.version())),
            Err(kind) => AgeStep::Done(Err(Error::Io(kind))),
        }
    }

    /// Ends the freshness check after the seed version was written, or not.
    pub fn seeded(written: Result<(), IoKind>) -> (age: Result<u128, Error>)
        ensures
            age == seeded(written),
    {
        match written {
            Ok(_) => Ok(0),
            Err(kind) => Err(Error::Io(kind)),
        }
    }

    /// Decides how recreating goes on once deleting the old file has
    /// succeeded or failed: `Ok` holds the contents to write, exactly
    /// `version`; `Err` ends it, and nothing is written. A file that was
    /// not there to delete is a failure like any other.
    pub fn recreate_file(removed: Result<(), IoKind>, version: &str) -> (r: Result<String, Error>)
        ensures
            text(r) == recreate_step(removed, version@),
    {
        match removed {
            Ok(_) => Ok(String::from_str(version)),
            Err(kind) => Err(Error::Io(kind)),
        }
    }

    /// Reports the outcome of overwriting the file with a version.
    pub fn write_version(written: Result<(), IoKind>) -> (r: Result<(), Error>)
        ensures
            r == reported(written),
    {
        match written {
            Ok(_) => Ok(()),
            Err(kind) => Err(Error::Io(kind)),
        }
    }

    /// Reports the outcome of reading the file: its contents as they are,
    /// or the failure. A missing file is a failure, not an empty version.
    pub fn get_version(read: Result<String, IoKind>) -> (r: Result<String, Error>)
        ensures
            text(r) == reported(raw_text(read)),
    {
        match read {
            Ok(contents) => Ok(contents),
            Err(kind) => Err(Error::Io(kind)),
        }
    }
}

} // verus!
