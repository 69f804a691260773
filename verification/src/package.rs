//! The identifier of a package: a name and, on registries that have
//! namespaces, the owner it belongs to.

use vstd::prelude::*;
use vstd::string::*;

verus! {

/// A package as the contracts see it.
pub struct PackageView {
    pub owner: Option<Seq<char>>,
    pub name: Seq<char>,
}

impl PackageView {
    /// A package has a name.
    pub open spec fn wf(self) -> bool {
        self.name.len() > 0
    }
}

/// A package to look up: `name`, or `owner/name` on a namespaced registry.
#[derive(Debug, Clone, PartialEq, Eq)]
pub struct Package {
    owner: Option<String>,
    name: String,
}

impl View for Package {
    type V = PackageView;

    closed spec fn view(&self) -> PackageView {
        PackageView {
            owner: match self.owner {
                Some(o) => Some(o@),
                None => None,
            },
            name: self.name@,
        }
    }
}

/// The owner and the name with `separator` between them, or the name alone
/// where the package has no owner. Every textual form of a package is this
/// function with some separator, so that they cannot drift apart.
pub open spec fn qualified(pkg: PackageView, separator: Seq<char>) -> Seq<char> {
    match pkg.owner {
        Some(o) => o + separator + pkg.name,
        None => pkg.name,
    }
}

/// The form used in registry addresses: `owner/name`, or `name`.
pub open spec fn identifier(pkg: PackageView) -> Seq<char> {
    qualified(pkg, "/"@)
}

impl Package {
    /// A package without an owner.
    pub fn new(name: &str) -> (pkg: Package)
        requires
            name@.len() > 0,
        ensures
            pkg@.wf(),
            pkg@.owner is None,
            pkg@.name == name@,
    {
        Package { owner: None, name: String::from_str(name) }
    }

    /// A package in the namespace of `owner`.
    pub fn with_owner(owner: &str, name: &str) -> (pkg: Package)
        requires
            name@.len() > 0,
        ensures
            pkg@.wf(),
            pkg@.owner == Some(owner@),
            pkg@.name == name@,
    {
        Package { owner: Some(String::from_str(owner)), name: String::from_str(name) }
    }

    /// The name of the package.
    pub fn name(&self) -> (s: &str)
        ensures
            s@ == self@.name,
    {
        self.name.as_str()
    }

    /// The owner, where the package has one.
    pub fn owner(&self) -> (o: Option<&str>)
        ensures
            o is Some <==> self@.owner is Some,
            o is Some ==> o->Some_0@ == self@.owner->Some_0,
    {
        match &self.owner {
            Some(o) => Some(o.as_str()),
            None => None,
        }
    }

    /// Owner and name joined by `separator`; the name alone without an owner.
    pub fn qualified(&self, separator: &str) -> (s: String)
        ensures
            s@ == qualified(self@, separator@),
    {
        match &self.owner {
            Some(o) => {
                let mut s = String::from_str(o.as_str());
                s.append(separator);
                s.append(self.name.as_str());
                s
            },
            None => String::from_str(self.name.as_str()),
        }
    }

    /// The form used in registry addresses: `owner/name`, or `name`.
    pub fn identifier(&self) -> (s: String)
        ensures
            s@ == identifier(self@),
    {
        self.qualified("/")
    }
}

} // verus!
