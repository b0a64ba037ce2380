//! The snapshots that a query reads: the project around the working
//! directory, the catalog of what is installed, and the home directory.
//! They are built once, before the query, and never changed by it.

use vstd::prelude::*;
use vstd::string::*;
use crate::text::{contains_name, names_contain};
use crate::version::{Collection, Requirement, Version};

verus! {

/// Why a snapshot could not be had.
#[derive(Debug)]
pub struct Failure {
    pub message: String,
}

impl View for Failure {
    type V = Seq<char>;

    open spec fn view(&self) -> Seq<char> {
        self.message@
    }
}

impl Failure {
    pub fn new(message: &str) -> (failure: Failure)
        ensures
            failure@ == message@,
    {
        Failure { message: String::from_str(message) }
    }

    /// A failure with the same message.
    pub fn duplicate(&self) -> (copy: Failure)
        ensures
            copy@ == self@,
    {
        Failure { message: self.message.clone() }
    }
}

/// A project: what its manifest requires and what it has installed for
/// itself.
#[derive(Debug)]
pub struct Project {
    /// The path of the project's manifest.
    pub manifest: String,
    /// The Node requirement, which every project has.
    pub node: Requirement,
    /// The Yarn requirement, if the project has one.
    pub yarn: Option<Requirement>,
    /// The directory of the executables installed in the project.
    pub bin_dir: String,
    /// The names of the executables installed in the project.
    pub local_bins: Vec<String>,
    /// The names of the packages that the project depends on.
    pub dependencies: Vec<String>,
}

impl Project {
    pub open spec fn has_local_bin_spec(self, name: Seq<char>) -> bool {
        names_contain(self.local_bins@, name)
    }

    pub open spec fn has_dependency_spec(self, name: Seq<char>) -> bool {
        names_contain(self.dependencies@, name)
    }

    /// Whether the project has an executable of this exact name installed
    /// for itself.
    pub fn has_local_bin(&self, name: &str) -> (has: bool)
        ensures
            has == self.has_local_bin_spec(name@),
    {
        contains_name(&self.local_bins, name)
    }

    /// Whether the project depends on the package of this name.
    pub fn has_dependency(&self, name: &str) -> (has: bool)
        ensures
            has == self.has_dependency_spec(name@),
    {
        contains_name(&self.dependencies, name)
    }

    /// The directory of the executables installed in the project.
    pub fn local_bin_dir(&self) -> (dir: String)
        ensures
            dir@ == self.bin_dir@,
    {
        self.bin_dir.clone()
    }

    /// The path of the project's manifest.
    pub fn package_file(&self) -> (path: String)
        ensures
            path@ == self.manifest@,
    {
        self.manifest.clone()
    }
}

/// An installed package: its version, the Node version it was built
/// against, and the executables it exposes.
#[derive(Debug)]
pub struct PackageRecord {
    pub name: String,
    pub version: Version,
    pub node: Version,
    pub bins: Vec<String>,
}

/// What is installed, tool by tool.
#[derive(Debug)]
pub struct Catalog {
    pub node: Collection,
    pub yarn: Collection,
    pub packages: Vec<PackageRecord>,
}

/// The user's own default versions.
#[derive(Clone, Copy, Debug)]
pub struct Platform {
    pub node: Version,
    pub yarn: Option<Version>,
}

/// Everything a query reads. The catalog may have failed to load; the query
/// that needs it then fails with that failure.
#[derive(Debug)]
pub struct Session {
    pub project: Option<Project>,
    pub catalog: Result<Catalog, Failure>,
    pub home: String,
}

impl Session {
    /// The user's default Node version, if the catalog holds one.
    pub open spec fn global_node_spec(self) -> Result<Option<Version>, Seq<char>> {
        match self.catalog {
            Ok(catalog) => Ok(catalog.node.default),
            Err(failure) => Err(failure@),
        }
    }

    /// The user's default Node version, if the catalog holds one.
    pub fn global_node(&self) -> (found: Result<Option<Version>, Failure>)
        ensures
            match found {
                Ok(version) => self.global_node_spec() == Ok::<Option<Version>, Seq<char>>(version),
                Err(failure) => self.global_node_spec() == Err::<Option<Version>, Seq<char>>(failure@),
            },
    {
        match &self.catalog {
            Ok(catalog) => Ok(catalog.node.default),
            Err(failure) => Err(failure.duplicate()),
        }
    }
}

} // verus!
