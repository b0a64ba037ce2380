//! What a shim does when it is run: the executable that its name resolves
//! to in the current context, and the listing of the shims on disk.

use vstd::prelude::*;
use vstd::string::*;
use crate::path::{
    node_version_3p_bin_dir, node_version_3p_bin_dir_spec, node_version_bin_dir,
    node_version_bin_dir_spec, yarn_version_bin_dir, yarn_version_bin_dir_spec,
};
use crate::session::{Failure, Project, Session};
use crate::text::{join, join_spec, same_text};
use crate::version::{resolve_local_spec, Requirement, Version};

verus! {

/// What running a shim comes to.
#[derive(Debug)]
pub enum ShimKind {
    /// The project's own executable of that name, at this path.
    Local(String),
    /// The executable of an installed version, at this path.
    Global(String),
    /// Whatever the system's search path holds.
    System,
    /// A Node version is known, but the executable was never installed for it.
    NotInstalled,
    /// Nothing installed satisfies this requirement: it is installed first.
    WillInstall(Requirement),
    /// Shims of this name are not wired up.
    Unimplemented,
}

pub enum ShimKindView {
    Local(Seq<char>),
    Global(Seq<char>),
    System,
    NotInstalled,
    WillInstall(Seq<char>),
    Unimplemented,
}

impl View for ShimKind {
    type V = ShimKindView;

    open spec fn view(&self) -> ShimKindView {
        match self {
            ShimKind::Local(path) => ShimKindView::Local(path@),
            ShimKind::Global(path) => ShimKindView::Global(path@),
            ShimKind::System => ShimKindView::System,
            ShimKind::NotInstalled => ShimKindView::NotInstalled,
            ShimKind::WillInstall(requirement) => ShimKindView::WillInstall(requirement@),
            ShimKind::Unimplemented => ShimKindView::Unimplemented,
        }
    }
}

/// The outcome of a resolution: what the shim does, or the message of the
/// failure that kept it from being found out.
pub type Outcome = Result<ShimKindView, Seq<char>>;

pub open spec fn outcome_view(outcome: Result<ShimKind, Failure>) -> Outcome {
    match outcome {
        Ok(kind) => Ok(kind@),
        Err(failure) => Err(failure@),
    }
}

/// How the outcome is shown in a listing.
pub open spec fn describe_spec(kind: ShimKindView) -> Seq<char> {
    match kind {
        ShimKindView::Local(path) => path,
        ShimKindView::Global(path) => path,
        ShimKindView::System => "[system]"@,
        ShimKindView::NotInstalled => "[executable not installed!]"@,
        ShimKindView::WillInstall(requirement) => "[will install version "@ + requirement + "]"@,
        ShimKindView::Unimplemented => "[shim not implemented!]"@,
    }
}

impl ShimKind {
    /// How the outcome is shown in a listing.
    pub fn describe(&self) -> (text: String)
        ensures
            text@ == describe_spec(self@),
    {
        match self {
            ShimKind::Local(path) => path.clone(),
            ShimKind::Global(path) => path.clone(),
            ShimKind::System => String::from_str("[system]"),
            ShimKind::NotInstalled => String::from_str("[executable not installed!]"),
            ShimKind::WillInstall(requirement) => String::from_str("[will install version ").concat(
                requirement.text.as_str(),
            ).concat("]"),
            ShimKind::Unimplemented => String::from_str("[shim not implemented!]"),
        }
    }
}

/// The latest installed Node version that satisfies the project's
/// requirement.
pub open spec fn node_is_available_spec(project: Project, session: Session) -> Result<Option<Version>, Seq<char>> {
    match session.catalog {
        Ok(catalog) => Ok(resolve_local_spec(catalog.node.versions@, project.node@)),
        Err(failure) => Err(failure@),
    }
}

/// The latest installed Node version that satisfies the project's
/// requirement.
pub fn node_is_available(project: &Project, session: &Session) -> (found: Result<Option<Version>, Failure>)
    ensures
        match found {
            Ok(version) => node_is_available_spec(*project, *session) == Ok::<Option<Version>, Seq<char>>(version),
            Err(failure) => node_is_available_spec(*project, *session) == Err::<Option<Version>, Seq<char>>(failure@),
        },
{
    match &session.catalog {
        Ok(catalog) => Ok(catalog.node.resolve_local(&project.node)),
        Err(failure) => Err(failure.duplicate()),
    }
}

/// The executable `name` among those that Node `version` brings.
pub open spec fn node_bin_spec(home: Seq<char>, version: Version, name: Seq<char>) -> Seq<char> {
    join_spec(node_version_bin_dir_spec(home, version.text()), name)
}

/// The executable `name` among those that Yarn `version` brings.
pub open spec fn yarn_bin_spec(home: Seq<char>, version: Version, name: Seq<char>) -> Seq<char> {
    join_spec(yarn_version_bin_dir_spec(home, version.text()), name)
}

/// The executable `name` among those of the packages installed for Node
/// `version`.
pub open spec fn third_party_bin_spec(home: Seq<char>, version: Version, name: Seq<char>) -> Seq<char> {
    join_spec(node_version_3p_bin_dir_spec(home, version.text()), name)
}

/// Node and npm. In a project, the latest installed version that satisfies
/// the project's requirement, or else the promise to install one; the user's
/// default is not consulted. Outside a project, the user's default, or else
/// the system's.
pub open spec fn resolve_node_spec(session: Session, name: Seq<char>) -> Outcome {
    match session.catalog {
        Err(failure) => Err(failure@),
        Ok(catalog) => match session.project {
            Some(project) => match resolve_local_spec(catalog.node.versions@, project.node@) {
                Some(version) => Ok(ShimKindView::Global(node_bin_spec(session.home@, version, name))),
                None => Ok(ShimKindView::WillInstall(project.node@)),
            },
            None => match catalog.node.default {
                Some(version) => Ok(ShimKindView::Global(node_bin_spec(session.home@, version, name))),
                None => Ok(ShimKindView::System),
            },
        },
    }
}

/// The Yarn requirement that applies: that of the project, if there is a
/// project and it has one.
pub open spec fn yarn_requirement_spec(session: Session) -> Option<Seq<char>> {
    match session.project {
        Some(project) => match project.yarn {
            Some(requirement) => Some(requirement@),
            None => None,
        },
        None => None,
    }
}

/// Yarn. Where the project states a Yarn requirement, as for Node. Where it
/// states none, or there is no project, the user's default, or else the
/// system's.
pub open spec fn resolve_yarn_spec(session: Session, name: Seq<char>) -> Outcome {
    match session.catalog {
        Err(failure) => Err(failure@),
        Ok(catalog) => match yarn_requirement_spec(session) {
            Some(requirement) => match resolve_local_spec(catalog.yarn.versions@, requirement) {
                Some(version) => Ok(ShimKindView::Global(yarn_bin_spec(session.home@, version, name))),
                None => Ok(ShimKindView::WillInstall(requirement)),
            },
            None => match catalog.yarn.default {
                Some(version) => Ok(ShimKindView::Global(yarn_bin_spec(session.home@, version, name))),
                None => Ok(ShimKindView::System),
            },
        },
    }
}

/// Executables of packages. In a project, the project's own executable of
/// that name wins; else the one installed for the Node version that the
/// project resolves to; with no such version the executable is not installed.
/// Outside a project, the one installed for the user's default Node, or else
/// the system's.
pub open spec fn resolve_3p_spec(session: Session, name: Seq<char>) -> Outcome {
    match session.project {
        Some(project) => if project.has_local_bin_spec(name) {
            Ok(ShimKindView::Local(join_spec(project.bin_dir@, name)))
        } else {
            match session.catalog {
                Err(failure) => Err(failure@),
                Ok(catalog) => match resolve_local_spec(catalog.node.versions@, project.node@) {
                    Some(version) => Ok(ShimKindView::Global(third_party_bin_spec(session.home@, version, name))),
                    None => Ok(ShimKindView::NotInstalled),
                },
            }
        },
        None => match session.catalog {
            Err(failure) => Err(failure@),
            Ok(catalog) => match catalog.node.default {
                Some(version) => Ok(ShimKindView::Global(third_party_bin_spec(session.home@, version, name))),
                None => Ok(ShimKindView::System),
            },
        },
    }
}

/// What the shim of the given name does: `node` and `npm` go by the Node
/// rule, `yarn` by the Yarn rule, `npx` is not wired up, and every other
/// name is the executable of a package.
pub open spec fn resolve_shim_spec(session: Session, name: Seq<char>) -> Outcome {
    if name == "node"@ || name == "npm"@ {
        resolve_node_spec(session, name)
    } else if name == "yarn"@ {
        resolve_yarn_spec(session, name)
    } else if name == "npx"@ {
        Ok(ShimKindView::Unimplemented)
    } else {
        resolve_3p_spec(session, name)
    }
}

/// The executable `name` in the directory that Node `version` brings.
fn node_bin(session: &Session, version: &Version, name: &str) -> (path: String)
    ensures
        path@ == node_bin_spec(session.home@, *version, name@),
{
    let dir = node_version_bin_dir(session.home.as_str(), version.to_text().as_str());
    join(dir.as_str(), name)
}

fn yarn_bin(session: &Session, version: &Version, name: &str) -> (path: String)
    ensures
        path@ == yarn_bin_spec(session.home@, *version, name@),
{
    let dir = yarn_version_bin_dir(session.home.as_str(), version.to_text().as_str());
    join(dir.as_str(), name)
}

fn third_party_bin(session: &Session, version: &Version, name: &str) -> (path: String)
    ensures
        path@ == third_party_bin_spec(session.home@, *version, name@),
{
    let dir = node_version_3p_bin_dir(session.home.as_str(), version.to_text().as_str());
    join(dir.as_str(), name)
}

/// Resolves a shim of Node or npm.
pub fn resolve_node_shims(session: &Session, shim_name: &str) -> (outcome: Result<ShimKind, Failure>)
    ensures
        outcome_view(outcome) == resolve_node_spec(*session, shim_name@),
{
    if let Some(project) = &session.project {
        match node_is_available(project, session) {
            Err(failure) => Err(failure),
            Ok(Some(available)) => Ok(ShimKind::Global(node_bin(session, &available, shim_name))),
            Ok(None) => Ok(ShimKind::WillInstall(Requirement { text: project.node.text.clone() })),
        }
    } else {
        match session.global_node() {
            Err(failure) => Err(failure),
            Ok(Some(global_version)) => Ok(ShimKind::Global(node_bin(session, &global_version, shim_name))),
            Ok(None) => Ok(ShimKind::System),
        }
    }
}

/// The project's Yarn requirement, where there is a project and it has one.
fn yarn_requirement(session: &Session) -> (found: Option<&Requirement>)
    ensures
        match found {
            Some(requirement) => yarn_requirement_spec(*session) == Some(requirement@),
            None => yarn_requirement_spec(*session).is_none(),
        },
{
    match &session.project {
        Some(project) => match &project.yarn {
            Some(requirement) => Some(requirement),
            None => None,
        },
        None => None,
    }
}

/// Resolves a shim of Yarn.
pub fn resolve_yarn_shims(session: &Session, shim_name: &str) -> (outcome: Result<ShimKind, Failure>)
    ensures
        outcome_view(outcome) == resolve_yarn_spec(*session, shim_name@),
{
    match &session.catalog {
        Err(failure) => Err(failure.duplicate()),
        Ok(catalog) => match yarn_requirement(session) {
            Some(requirements) => match catalog.yarn.resolve_local(requirements) {
                Some(available) => Ok(ShimKind::Global(yarn_bin(session, &available, shim_name))),
                None => Ok(ShimKind::WillInstall(Requirement { text: requirements.text.clone() })),
            },
            None => match catalog.yarn.default {
                Some(default_version) => Ok(ShimKind::Global(yarn_bin(session, &default_version, shim_name))),
                None => Ok(ShimKind::System),
            },
        },
    }
}

/// Resolves a shim of npx.
pub fn resolve_npx_shims(_session: &Session, _shim_name: &str) -> (outcome: Result<ShimKind, Failure>)
    ensures
        outcome_view(outcome) == Ok::<ShimKindView, Seq<char>>(ShimKindView::Unimplemented),
{
    Ok(ShimKind::Unimplemented)
}

/// Resolves the shim of a package's executable.
pub fn resolve_3p_shims(session: &Session, shim_name: &str) -> (outcome: Result<ShimKind, Failure>)
    ensures
        outcome_view(outcome) == resolve_3p_spec(*session, shim_name@),
{
    if let Some(project) = &session.project {
        if project.has_local_bin(shim_name) {
            let path_to_bin = join(project.local_bin_dir().as_str(), shim_name);
            return Ok(ShimKind::Local(path_to_bin));
        }
        match node_is_available(project, session) {
            Err(failure) => Err(failure),
            Ok(Some(available)) => Ok(ShimKind::Global(third_party_bin(session, &available, shim_name))),
            Ok(None) => Ok(ShimKind::NotInstalled),
        }
    } else {
        match session.global_node() {
            Err(failure) => Err(failure),
            Ok(Some(global_version)) => Ok(ShimKind::Global(third_party_bin(session, &global_version, shim_name))),
            Ok(None) => Ok(ShimKind::System),
        }
    }
}

/// Finds out what the shim of the given name does.
pub fn resolve_shim(session: &Session, shim_name: &str) -> (outcome: Result<ShimKind, Failure>)
    ensures
        outcome_view(outcome) == resolve_shim_spec(*session, shim_name@),
{
    if same_text(shim_name, "node") || same_text(shim_name, "npm") {
        resolve_node_shims(session, shim_name)
    } else if same_text(shim_name, "yarn") {
        resolve_yarn_shims(session, shim_name)
    } else if same_text(shim_name, "npx") {
        resolve_npx_shims(session, shim_name)
    } else {
        resolve_3p_shims(session, shim_name)
    }
}

/// The arguments of the shim command.
#[derive(Debug)]
pub struct Args {
    pub arg_shimname: Option<String>,
    pub flag_delete: bool,
    pub flag_verbose: bool,
}

/// What the shim command is asked to do; the flag says whether to be
/// verbose.
#[derive(Debug)]
pub enum Shim {
    Help,
    List(bool),
    Create(String, bool),
    Delete(String, bool),
}

pub enum ShimView {
    Help,
    List(bool),
    Create(Seq<char>, bool),
    Delete(Seq<char>, bool),
}

impl View for Shim {
    type V = ShimView;

    open spec fn view(&self) -> ShimView {
        match self {
            Shim::Help => ShimView::Help,
            Shim::List(verbose) => ShimView::List(*verbose),
            Shim::Create(name, verbose) => ShimView::Create(name@, *verbose),
            Shim::Delete(name, verbose) => ShimView::Delete(name@, *verbose),
        }
    }
}

/// With a name, the shim of that name is deleted or made; without one, the
/// shims are listed.
pub open spec fn parse_spec(args: Args) -> ShimView {
    match args.arg_shimname {
        Some(name) => if args.flag_delete {
            ShimView::Delete(name@, args.flag_verbose)
        } else {
            ShimView::Create(name@, args.flag_verbose)
        },
        None => ShimView::List(args.flag_verbose),
    }
}

impl Shim {
    pub fn help() -> (command: Shim)
        ensures
            command@ == ShimView::Help,
    {
        Shim::Help
    }

    /// Reads the command from its arguments.
    pub fn parse(args: Args) -> (command: Shim)
        ensures
            command@ == parse_spec(args),
    {
        let Args { arg_shimname, flag_delete, flag_verbose } = args;
        if let Some(shim_name) = arg_shimname {
            if flag_delete {
                Shim::Delete(shim_name, flag_verbose)
            } else {
                Shim::Create(shim_name, flag_verbose)
            }
        } else {
            Shim::List(flag_verbose)
        }
    }
}

} // verus!
