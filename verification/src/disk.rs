//! A disk that behaves: the model against which the life of a cache file is
//! stated. A file is there or not; writing always works and replaces the
//! whole contents; deleting and reading fail exactly when the file is not
//! there; the clock is a number of nanoseconds.
//!
//! The functions named `run_..` put the decisions of `lifecycle` between the
//! operations, as a caller does on a real disk. The proofs below are about
//! these runs.

use crate::error::{Error, IoKind};
use crate::lifecycle::{age_step, recreate_step, reported, seeded, AgeStepView};
use crate::version_file::VersionFileView;
use vstd::prelude::*;

verus! {

/// A file on the model disk.
pub struct StoredFile {
    /// All that the file holds.
    pub contents: Seq<char>,
    /// When it was last written.
    pub written_at: u128,
}

/// What the metadata of the file says at time `now`.
pub open spec fn stat(file: Option<StoredFile>, now: u128) -> Result<Option<u128>, IoKind> {
    match file {
        None => Err(IoKind::NotFound),
        Some(f) => if f.written_at <= now {
            Ok(Some((now - f.written_at) as u128))
        } else {
            Ok(None)
        },
    }
}

/// The file after `contents` were written to it at time `now`.
pub open spec fn write(file: Option<StoredFile>, contents: Seq<char>, now: u128) -> (
    Option<StoredFile>,
    Result<(), IoKind>,
) {
    (Some(StoredFile { contents, written_at: now }), Ok(()))
}

/// The file after deleting it, and whether there was one to delete.
pub open spec fn remove(file: Option<StoredFile>) -> (Option<StoredFile>, Result<(), IoKind>) {
    match file {
        Some(_) => (None, Ok(())),
        None => (None, Err(IoKind::NotFound)),
    }
}

/// What reading the file gives.
pub open spec fn read(file: Option<StoredFile>) -> Result<Seq<char>, IoKind> {
    match file {
        Some(f) => Ok(f.contents),
        None => Err(IoKind::NotFound),
    }
}

/// The freshness check on the model disk at time `now`: the file afterwards
/// and the age reported.
pub open spec fn run_last_modified(entry: VersionFileView, file: Option<StoredFile>, now: u128) -> (
    Option<StoredFile>,
    Result<u128, Error>,
) {
    match age_step(entry, stat(file, now)) {
        AgeStepView::Seed(contents) => {
            let (after, written) = write(file, contents, now);
            (after, seeded(written))
        },
        AgeStepView::Done(age) => (file, age),
    }
}

/// Writing a version on the model disk at time `now`.
pub open spec fn run_write_version(file: Option<StoredFile>, version: Seq<char>, now: u128) -> (
    Option<StoredFile>,
    Result<(), Error>,
) {
    let (after, written) = write(file, version, now);
    (after, reported(written))
}

/// Recreating the file with a version on the model disk at time `now`.
pub open spec fn run_recreate_file(file: Option<StoredFile>, version: Seq<char>, now: u128) -> (
    Option<StoredFile>,
    Result<(), Error>,
) {
    let (gone, removed) = remove(file);
    match recreate_step(removed, version) {
        Ok(contents) => {
            let (after, written) = write(gone, contents, now);
            (after, reported(written))
        },
        Err(e) => (gone, Err(e)),
    }
}

/// Reading the version on the model disk.
pub open spec fn run_get_version(file: Option<StoredFile>) -> Result<Seq<char>, Error> {
    reported(read(file))
}

/// First run: where the file does not exist, the freshness check reports
/// age zero, and afterwards the file holds the seed version unchanged.
pub proof fn lemma_bootstrap(entry: VersionFileView, now: u128)
    ensures
        run_last_modified(entry, None, now).1 == Ok::<u128, Error>(0),
        run_get_version(run_last_modified(entry, None, now).0) == Ok::<Seq<char>, Error>(
            entry.version,
        ),
{
}

/// A file written at time `t` and checked `d` later has an age of at least
/// `d`, whatever it held before and whatever it holds.
pub proof fn lemma_age_after_write(
    entry: VersionFileView,
    before: Option<StoredFile>,
    version: Seq<char>,
    t: u128,
    d: u128,
)
    requires
        t + d <= u128::MAX,
    ensures
        ({
            let file = run_write_version(before, version, t).0;
            let checked = run_last_modified(entry, file, (t + d) as u128);
            &&& checked.0 == file
            &&& checked.1 is Ok
            &&& checked.1->Ok_0 >= d
        }),
{
}

/// The freshness check on a file that exists leaves it as it is and never
/// fails; a file that seems written in the future has age zero.
pub proof fn lemma_age_of_existing(entry: VersionFileView, file: StoredFile, now: u128)
    ensures
        run_last_modified(entry, Some(file), now).0 == Some(file),
        run_last_modified(entry, Some(file), now).1 is Ok,
        file.written_at > now ==> run_last_modified(entry, Some(file), now).1 == Ok::<u128, Error>(
            0,
        ),
{
}

/// Whatever is written is what is read back, exactly, whatever the file
/// held before.
pub proof fn lemma_round_trip(before: Option<StoredFile>, version: Seq<char>, now: u128)
    ensures
        run_write_version(before, version, now).1 is Ok,
        run_get_version(run_write_version(before, version, now).0) == Ok::<Seq<char>, Error>(
            version,
        ),
{
}

/// Recreating an existing file leaves it holding exactly the new version.
pub proof fn lemma_recreate_existing(file: StoredFile, version: Seq<char>, now: u128)
    ensures
        run_recreate_file(Some(file), version, now).1 is Ok,
        run_get_version(run_recreate_file(Some(file), version, now).0) == Ok::<Seq<char>, Error>(
            version,
        ),
{
}

/// Recreating a file that does not exist fails as not found, and writes
/// nothing.
pub proof fn lemma_recreate_missing(version: Seq<char>, now: u128)
    ensures
        run_recreate_file(None, version, now) == (
            None::<StoredFile>,
            Err::<(), Error>(Error::Io(IoKind::NotFound)),
        ),
{
}

/// Reading where there is no file fails as not found; it gives no empty or
/// made-up version.
pub proof fn lemma_read_missing()
    ensures
        run_get_version(None) == Err::<Seq<char>, Error>(Error::Io(IoKind::NotFound)),
{
}

} // verus!
