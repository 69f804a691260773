//! The cache entry of one package on one registry: where its file lives and
//! which version seeds it.

use crate::error::Error;
use crate::package::{qualified, Package, PackageView};
use crate::resolver::cache_path;
use vstd::prelude::*;
use vstd::string::*;

verus! {

/// The fixed end of every cache file's name.
pub const VERSION_SUFFIX: &'static str = "latest-version";

/// A cache entry as the contracts see it.
pub struct VersionFileView {
    /// The cache directory.
    pub dir: Seq<char>,
    /// The name of the file inside `dir`.
    pub file_name: Seq<char>,
    /// The version written when the file does not exist yet.
    pub version: Seq<char>,
}

/// The name of the cache file of `pkg` on `registry`:
/// `registry-owner-name-latest-version`, without `owner-` where the package
/// has no owner.
pub open spec fn cache_file_name(registry: Seq<char>, pkg: PackageView) -> Seq<char> {
    registry + "-"@ + qualified(pkg, "-"@) + "-"@ + VERSION_SUFFIX@
}

/// The entry that `registry`, `pkg` and a seed version give in `dir`.
pub open spec fn entry_in(
    dir: Seq<char>,
    registry: Seq<char>,
    pkg: PackageView,
    version: Seq<char>,
) -> VersionFileView {
    VersionFileView { dir, file_name: cache_file_name(registry, pkg), version }
}

/// The view of the outcome of building an entry.
pub open spec fn built(r: Result<VersionFile, Error>) -> Result<VersionFileView, Error> {
    match r {
        Ok(entry) => Ok(entry@),
        Err(e) => Err(e),
    }
}

/// The cached latest version of one package on one registry. The value only
/// names the file; building it touches nothing on disk.
#[derive(Debug, Clone, PartialEq, Eq)]
pub struct VersionFile {
    dir: String,
    file_name: String,
    version: String,
}

impl View for VersionFile {
    type V = VersionFileView;

    closed spec fn view(&self) -> VersionFileView {
        VersionFileView { dir: self.dir@, file_name: self.file_name@, version: self.version@ }
    }
}

/// The name of the cache file of `pkg` on `registry`.
pub fn file_name(registry: &str, pkg: &Package) -> (name: String)
    ensures
        name@ == cache_file_name(registry@, pkg@),
{
    let mut name = String::from_str(registry);
    name.append("-");
    let qualified_name = pkg.qualified("-");
    name.append(qualified_name.as_str());
    name.append("-");
    name.append(VERSION_SUFFIX);
    name
}

impl VersionFile {
    /// The entry of `pkg` on `registry` in the platform's cache directory,
    /// seeded with `version`. Fails only where the platform names no cache
    /// directory. The file name and the seed do not depend on the platform.
    pub fn new(registry: &str, pkg: &Package, version: &str) -> (r: Result<VersionFile, Error>)
        ensures
            r is Err ==> r == Err::<VersionFile, Error>(Error::CacheUnavailable),
            r is Ok ==> r->Ok_0@ == entry_in(r->Ok_0@.dir, registry@, pkg@, version@),
    {
        VersionFile::in_dir(cache_path(), registry, pkg, version)
    }

    /// The entry of `pkg` on `registry` in the directory that a resolver
    /// answered with, or the resolver's error.
    pub fn in_dir(
        resolved: Result<String, Error>,
        registry: &str,
        pkg: &Package,
        version: &str,
    ) -> (r: Result<VersionFile, Error>)
        ensures
            built(r) == match resolved {
                Ok(dir) => Ok(entry_in(dir@, registry@, pkg@, version@)),
                Err(e) => Err(e),
            },
    {
        match resolved {
            Ok(dir) => Ok(
                VersionFile {
                    dir,
                    file_name: file_name(registry, pkg),
                    version: String::from_str(version),
                },
            ),
            Err(e) => Err(e),
        }
    }

    /// The cache directory.
    pub fn dir(&self) -> (s: &str)
        ensures
            s@ == self@.dir,
    {
        self.dir.as_str()
    }

    /// The name of the file inside the cache directory.
    pub fn file_name(&self) -> (s: &str)
        ensures
            s@ == self@.file_name,
    {
        self.file_name.as_str()
    }

    /// The version that seeds the file.
    pub fn version(&self) -> (s: &str)
        ensures
            s@ == self@.version,
    {
        self.version.as_str()
    }
}

/// Two entries for the same package on the same registry in the same
/// directory name the same file, whatever versions seed them.
pub proof fn lemma_path_ignores_seed(
    dir: Seq<char>,
    registry: Seq<char>,
    pkg: PackageView,
    v1: Seq<char>,
    v2: Seq<char>,
)
    ensures
        entry_in(dir, registry, pkg, v1).dir == entry_in(dir, registry, pkg, v2).dir,
        entry_in(dir, registry, pkg, v1).file_name == entry_in(dir, registry, pkg, v2).file_name,
{
}

/// The file name written out: the registry, a dash, the owner and a dash
/// where there is an owner, the name, a dash and the suffix.
pub proof fn lemma_file_name_parts(registry: Seq<char>, pkg: PackageView)
    ensures
        pkg.owner is None ==> cache_file_name(registry, pkg) == registry + "-"@ + pkg.name + "-"@
            + VERSION_SUFFIX@,
        pkg.owner is Some ==> cache_file_name(registry, pkg) == registry + "-"@ + (pkg.owner->Some_0
            + "-"@) + pkg.name + "-"@ + VERSION_SUFFIX@,
{
    if pkg.owner is Some {
        let o = pkg.owner->Some_0;
        assert(registry + "-"@ + (o + "-"@ + pkg.name) =~= registry + "-"@ + (o + "-"@) + pkg.name);
    }
}

} // verus!
