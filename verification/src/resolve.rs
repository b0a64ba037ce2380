//! Resolution by tool identity, and what holds of every resolution.

use vstd::prelude::*;
use vstd::string::*;
use crate::list::Filter;
use crate::session::{Failure, Platform, Session};
use crate::shim::{
    outcome_view, resolve_3p_shims, resolve_3p_spec, resolve_node_shims, resolve_node_spec,
    resolve_npx_shims, resolve_shim_spec, resolve_yarn_shims, resolve_yarn_spec, Outcome, ShimKind,
    ShimKindView,
};
use crate::text::same_text;
use crate::toolchain::{
    active_tool_spec, manifest_spec, pins_yarn_spec, project_node_spec, project_yarn_spec, user_node_spec,
    user_yarn_spec,
};

verus! {

/// The tool that a name stands for.
#[derive(Debug)]
pub enum ToolIdentity {
    Node,
    /// Resolved as Node is: npm comes with it.
    Npm,
    Yarn,
    /// Reserved: not resolved to anything.
    Npx,
    /// The executable of this name that some package exposes.
    ThirdPartyBinary(String),
}

/// Whether a name belongs to one of the tools that the manager knows itself.
pub open spec fn is_reserved(name: Seq<char>) -> bool {
    name == "node"@ || name == "npm"@ || name == "yarn"@ || name == "npx"@
}

impl ToolIdentity {
    /// The name of the executable.
    pub open spec fn name_spec(self) -> Seq<char> {
        match self {
            ToolIdentity::Node => "node"@,
            ToolIdentity::Npm => "npm"@,
            ToolIdentity::Yarn => "yarn"@,
            ToolIdentity::Npx => "npx"@,
            ToolIdentity::ThirdPartyBinary(name) => name@,
        }
    }

    /// Whether this is the identity that a shim of the given name has.
    pub open spec fn is_of(self, name: Seq<char>) -> bool {
        self.name_spec() == name && (self is ThirdPartyBinary ==> !is_reserved(name))
    }

    /// The name of the executable.
    pub fn name(&self) -> (name: String)
        ensures
            name@ == self.name_spec(),
    {
        match self {
            ToolIdentity::Node => String::from_str("node"),
            ToolIdentity::Npm => String::from_str("npm"),
            ToolIdentity::Yarn => String::from_str("yarn"),
            ToolIdentity::Npx => String::from_str("npx"),
            ToolIdentity::ThirdPartyBinary(name) => name.clone(),
        }
    }

    /// The identity that a shim of the given name has.
    pub fn of(name: &str) -> (identity: ToolIdentity)
        ensures
            identity.is_of(name@),
    {
        if same_text(name, "node") {
            ToolIdentity::Node
        } else if same_text(name, "npm") {
            ToolIdentity::Npm
        } else if same_text(name, "yarn") {
            ToolIdentity::Yarn
        } else if same_text(name, "npx") {
            ToolIdentity::Npx
        } else {
            ToolIdentity::ThirdPartyBinary(String::from_str(name))
        }
    }
}

/// What a tool resolves to in a session.
pub open spec fn resolve_spec(session: Session, identity: ToolIdentity) -> Outcome {
    match identity {
        ToolIdentity::Node => resolve_node_spec(session, "node"@),
        ToolIdentity::Npm => resolve_node_spec(session, "npm"@),
        ToolIdentity::Yarn => resolve_yarn_spec(session, "yarn"@),
        ToolIdentity::Npx => Ok(ShimKindView::Unimplemented),
        ToolIdentity::ThirdPartyBinary(name) => resolve_3p_spec(session, name@),
    }
}

/// Resolves a tool in a session.
pub fn resolve(session: &Session, identity: &ToolIdentity) -> (outcome: Result<ShimKind, Failure>)
    ensures
        outcome_view(outcome) == resolve_spec(*session, *identity),
{
    match identity {
        ToolIdentity::Node => resolve_node_shims(session, "node"),
        ToolIdentity::Npm => resolve_node_shims(session, "npm"),
        ToolIdentity::Yarn => resolve_yarn_shims(session, "yarn"),
        ToolIdentity::Npx => resolve_npx_shims(session, "npx"),
        ToolIdentity::ThirdPartyBinary(name) => resolve_3p_shims(session, name.as_str()),
    }
}

/// The four reserved names are four different names.
pub proof fn reserved_names_differ()
    ensures
        "node"@ != "npm"@,
        "node"@ != "yarn"@,
        "node"@ != "npx"@,
        "npm"@ != "yarn"@,
        "npm"@ != "npx"@,
        "yarn"@ != "npx"@,
{
    reveal_strlit("node");
    reveal_strlit("npm");
    reveal_strlit("yarn");
    reveal_strlit("npx");
    assert("node"@.len() == 4 && "npm"@.len() == 3 && "yarn"@.len() == 4 && "npx"@.len() == 3);
    assert("node"@[0] == 'n' && "yarn"@[0] == 'y');
    assert("npm"@[2] == 'm' && "npx"@[2] == 'x');
}

/// Running a shim and resolving the identity that its name has come to the
/// same outcome.
pub proof fn dispatch_agrees_with_resolve(session: Session, identity: ToolIdentity, name: Seq<char>)
    requires
        identity.is_of(name),
    ensures
        resolve_shim_spec(session, name) == resolve_spec(session, identity),
{
    reserved_names_differ();
}

/// How many of the six kinds of outcome a value is.
pub open spec fn kinds_met(kind: ShimKindView) -> nat {
    let local: nat = if kind is Local { 1 } else { 0 };
    let global: nat = if kind is Global { 1 } else { 0 };
    let system: nat = if kind is System { 1 } else { 0 };
    let not_installed: nat = if kind is NotInstalled { 1 } else { 0 };
    let will_install: nat = if kind is WillInstall { 1 } else { 0 };
    let unimplemented: nat = if kind is Unimplemented { 1 } else { 0 };
    local + global + system + not_installed + will_install + unimplemented
}

/// Every resolution that does not fail comes to exactly one kind of outcome,
/// and it fails exactly when it needs a catalog that could not be had.
pub proof fn resolve_gives_one_kind(session: Session, identity: ToolIdentity)
    ensures
        match resolve_spec(session, identity) {
            Ok(kind) => kinds_met(kind) == 1,
            Err(message) => session.catalog is Err && session.catalog->Err_0@ == message,
        },
        session.catalog is Ok ==> resolve_spec(session, identity) is Ok,
{
}

/// A resolution comes to the project's own executable exactly when the tool
/// is a package's executable, there is a project, and the project has an
/// executable of that name installed for itself. The catalog has no say.
pub proof fn local_override_iff(session: Session, identity: ToolIdentity)
    ensures
        (resolve_spec(session, identity) is Ok && resolve_spec(session, identity)->Ok_0 is Local) <==> (
        identity is ThirdPartyBinary && session.project is Some
            && session.project->Some_0.has_local_bin_spec(identity.name_spec())),
{
}

/// A shim runs the project's own executable exactly when its name is not
/// reserved, there is a project, and the project has an executable of that
/// name installed for itself.
pub proof fn shim_runs_local_iff(session: Session, name: Seq<char>)
    ensures
        (resolve_shim_spec(session, name) is Ok && resolve_shim_spec(session, name)->Ok_0 is Local) <==> (
        !is_reserved(name) && session.project is Some && session.project->Some_0.has_local_bin_spec(name)),
{
}

/// Inside a project Node never passes through to the system, and neither
/// does the executable of a package.
pub proof fn project_never_passes_through(session: Session, name: Seq<char>)
    requires
        session.project is Some,
    ensures
        resolve_node_spec(session, name) != Ok::<ShimKindView, Seq<char>>(ShimKindView::System),
        resolve_3p_spec(session, name) != Ok::<ShimKindView, Seq<char>>(ShimKindView::System),
{
}

/// A missing Node version is promised for Node itself and never for the
/// executable of a package, which is reported as not installed instead.
pub proof fn missing_node_is_told_apart(session: Session, name: Seq<char>)
    requires
        session.project is Some,
        session.catalog is Ok,
        resolve_node_spec(session, "node"@) is Ok,
        resolve_node_spec(session, "node"@)->Ok_0 is WillInstall,
        !session.project->Some_0.has_local_bin_spec(name),
    ensures
        resolve_node_spec(session, "node"@) == Ok::<ShimKindView, Seq<char>>(
            ShimKindView::WillInstall(session.project->Some_0.node@),
        ),
        resolve_3p_spec(session, name) == Ok::<ShimKindView, Seq<char>>(ShimKindView::NotInstalled),
{
}

/// Without a project and without a default Node, Node and every package
/// executable pass through to the system.
pub proof fn nothing_configured_passes_through(session: Session, name: Seq<char>)
    requires
        session.project is None,
        session.catalog is Ok,
        session.catalog->Ok_0.node.default is None,
    ensures
        resolve_node_spec(session, name) == Ok::<ShimKindView, Seq<char>>(ShimKindView::System),
        resolve_3p_spec(session, name) == Ok::<ShimKindView, Seq<char>>(ShimKindView::System),
{
}

/// A project without a Yarn requirement resolves Yarn as if there were no
/// project: whether Node is required has no say.
pub proof fn yarn_without_requirement_uses_default(session: Session, name: Seq<char>)
    requires
        session.catalog is Ok,
        session.project is Some ==> session.project->Some_0.yarn is None,
    ensures
        resolve_yarn_spec(session, name) == (match session.catalog->Ok_0.yarn.default {
            Some(version) => Ok::<ShimKindView, Seq<char>>(
                ShimKindView::Global(crate::shim::yarn_bin_spec(session.home@, version, name)),
            ),
            None => Ok::<ShimKindView, Seq<char>>(ShimKindView::System),
        }),
{
}

/// A listing of what is in effect and a shim agree. Where the user's
/// defaults are those of the catalog, the Node version that the listing
/// shows as in effect is the one whose executable the shim runs, pinned by
/// the project exactly when there is a project; where the listing shows
/// none, the shim runs none of the manager's. The same holds of Yarn, pinned
/// by the project exactly when the project requires Yarn.
pub proof fn listing_agrees_with_shim(session: Session, user_platform: Option<Platform>, name: Seq<char>)
    requires
        session.catalog is Ok,
        user_node_spec(user_platform) == session.catalog->Ok_0.node.default,
        user_yarn_spec(user_platform) == session.catalog->Ok_0.yarn.default,
    ensures
        match active_tool_spec(
            session.project is Some,
            project_node_spec(session.project, session.catalog->Ok_0),
            manifest_spec(session.project),
            user_node_spec(user_platform),
            Filter::All,
        ) {
            Some(record) => resolve_node_spec(session, name) == Ok::<ShimKindView, Seq<char>>(
                ShimKindView::Global(crate::shim::node_bin_spec(session.home@, record.version, name)),
            ) && (record.source is Project <==> session.project is Some),
            None => resolve_node_spec(session, name) is Ok && !(resolve_node_spec(session, name)->Ok_0 is Global),
        },
        match active_tool_spec(
            pins_yarn_spec(session.project),
            project_yarn_spec(session.project, session.catalog->Ok_0),
            manifest_spec(session.project),
            user_yarn_spec(user_platform),
            Filter::All,
        ) {
            Some(record) => resolve_yarn_spec(session, name) == Ok::<ShimKindView, Seq<char>>(
                ShimKindView::Global(crate::shim::yarn_bin_spec(session.home@, record.version, name)),
            ) && (record.source is Project <==> pins_yarn_spec(session.project)),
            None => resolve_yarn_spec(session, name) is Ok && !(resolve_yarn_spec(session, name)->Ok_0 is Global),
        },
{
}

} // verus!
