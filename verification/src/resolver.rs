//! Where the cache lives: the platform's cache directory for this tool.

use crate::error::{Error, IoKind};
use vstd::prelude::*;

verus! {

/// The application name under which the platform's cache directory is asked for.
pub const APPLICATION: &'static str = "update-informer-rs";

/// Calls `directories::ProjectDirs::from` and hands back the project's cache
/// directory (`ProjectDirs::cache_dir`) as text. The answer depends on the
/// operating system, the user and the environment, so nothing is claimed of
/// it. `None` stands for "no home directory could be found" and also for a
/// directory whose name is not valid UTF-8, which a `String` cannot hold.
#[verifier::external_body]
fn project_cache_dir(qualifier: &str, organization: &str, application: &str) -> (dir: Option<
    String,
>) {
    match directories::ProjectDirs::from(qualifier, organization, application) {
        Some(dirs) => dirs.cache_dir().to_str().map(String::from),
        None => None,
    }
}

/// What the resolver reports for a directory the platform did or did not name.
pub open spec fn located(found: Option<Seq<char>>) -> Result<Seq<char>, Error> {
    match found {
        Some(dir) => Ok(dir),
        None => Err(Error::CacheUnavailable),
    }
}

/// What the resolver reports once the directory has been created, or not.
pub open spec fn prepared(dir: Seq<char>, created: Result<(), IoKind>) -> Result<Seq<char>, Error> {
    match created {
        Ok(_) => Ok(dir),
        Err(_) => Err(Error::CacheUnavailable),
    }
}

/// The view of a resolver's answer.
pub open spec fn answer(r: Result<String, Error>) -> Result<Seq<char>, Error> {
    match r {
        Ok(dir) => Ok(dir@),
        Err(e) => Err(e),
    }
}

/// Turns the platform's answer into the resolver's: a missing directory
/// makes the cache unavailable.
pub fn locate(found: Option<String>) -> (r: Result<String, Error>)
    ensures
        answer(r) == located(
            match found {
                Some(dir) => Some(dir@),
                None => None,
            },
        ),
{
    match found {
        Some(dir) => Ok(dir),
        None => Err(Error::CacheUnavailable),
    }
}

/// The platform's cache directory for this tool, not yet created. Which
/// directory it is, and whether there is one, is for the platform to say;
/// the only failure is `CacheUnavailable`.
pub fn cache_path() -> (r: Result<String, Error>)
    ensures
        r is Err ==> r == Err::<String, Error>(Error::CacheUnavailable),
{
    locate(project_cache_dir("", "", APPLICATION))
}

/// The resolver's answer after the caller tried to create `dir` and all its
/// parents: the directory if that worked, `CacheUnavailable` if it did not,
/// whatever the reason.
pub fn prepare(dir: String, created: Result<(), IoKind>) -> (r: Result<String, Error>)
    ensures
        answer(r) == prepared(dir@, created),
{
    match created {
        Ok(_) => Ok(dir),
        Err(_) => Err(Error::CacheUnavailable),
    }
}

} // verus!
