//! The toolchain as the user sees it: the tools and packages that are in
//! effect or installed, each with where its version comes from.

use vstd::prelude::*;
use vstd::string::*;
use crate::list::{
    allowed_spec, filter_spec, Filter, List, ListError, ListErrorView, Node, NodeView, Package, PackageManager, PackageManagerKind,
    PackageManagerView, PackageView, Source, SourceView, Subcommand,
};
use crate::session::{Catalog, PackageRecord, Platform, Project};
use crate::text::{contains_name, copy_names, names_contain, names_view, same_text};
use crate::version::{resolve_local_spec, Version};

verus! {

/// A listing of tools and packages, in one of the shapes that a query asks
/// for.
#[derive(Debug)]
pub enum Toolchain {
    Node(Vec<Node>),
    PackageManagers(Vec<PackageManager>),
    Packages(Vec<Package>),
    Tool { name: String, host_packages: Vec<Package> },
    Active { runtime: Option<Node>, package_manager: Option<PackageManager>, packages: Vec<Package> },
    All { runtimes: Vec<Node>, package_managers: Vec<PackageManager>, packages: Vec<Package> },
}

pub enum ToolchainView {
    Node(Seq<NodeView>),
    PackageManagers(Seq<PackageManagerView>),
    Packages(Seq<PackageView>),
    Tool { name: Seq<char>, host_packages: Seq<PackageView> },
    Active {
        runtime: Option<NodeView>,
        package_manager: Option<PackageManagerView>,
        packages: Seq<PackageView>,
    },
    All {
        runtimes: Seq<NodeView>,
        package_managers: Seq<PackageManagerView>,
        packages: Seq<PackageView>,
    },
}

pub open spec fn node_views(nodes: Seq<Node>) -> Seq<NodeView> {
    nodes.map_values(|node: Node| node@)
}

pub open spec fn manager_views(managers: Seq<PackageManager>) -> Seq<PackageManagerView> {
    managers.map_values(|manager: PackageManager| manager@)
}

pub open spec fn package_views(packages: Seq<Package>) -> Seq<PackageView> {
    packages.map_values(|package: Package| package@)
}

pub open spec fn optional_node_view(node: Option<Node>) -> Option<NodeView> {
    match node {
        Some(node) => Some(node@),
        None => None,
    }
}

pub open spec fn optional_manager_view(manager: Option<PackageManager>) -> Option<PackageManagerView> {
    match manager {
        Some(manager) => Some(manager@),
        None => None,
    }
}

impl View for Toolchain {
    type V = ToolchainView;

    open spec fn view(&self) -> ToolchainView {
        match self {
            Toolchain::Node(nodes) => ToolchainView::Node(node_views(nodes@)),
            Toolchain::PackageManagers(managers) => ToolchainView::PackageManagers(manager_views(managers@)),
            Toolchain::Packages(packages) => ToolchainView::Packages(package_views(packages@)),
            Toolchain::Tool { name, host_packages } => ToolchainView::Tool {
                name: name@,
                host_packages: package_views(host_packages@),
            },
            Toolchain::Active { runtime, package_manager, packages } => ToolchainView::Active {
                runtime: optional_node_view(*runtime),
                package_manager: optional_manager_view(*package_manager),
                packages: package_views(packages@),
            },
            Toolchain::All { runtimes, package_managers, packages } => ToolchainView::All {
                runtimes: node_views(runtimes@),
                package_managers: manager_views(package_managers@),
                packages: package_views(packages@),
            },
        }
    }
}

/// The path of the project's manifest, or the empty path without a project.
pub open spec fn manifest_spec(project: Option<Project>) -> Seq<char> {
    match project {
        Some(project) => project.manifest@,
        None => Seq::empty(),
    }
}

/// The Node version that the project pins: the latest installed one that
/// satisfies its requirement.
pub open spec fn project_node_spec(project: Option<Project>, inventory: Catalog) -> Option<Version> {
    match project {
        Some(project) => resolve_local_spec(inventory.node.versions@, project.node@),
        None => None,
    }
}

/// The Yarn version that the project pins, where it requires Yarn at all.
pub open spec fn project_yarn_spec(project: Option<Project>, inventory: Catalog) -> Option<Version> {
    match project {
        Some(project) => match project.yarn {
            Some(requirement) => resolve_local_spec(inventory.yarn.versions@, requirement@),
            None => None,
        },
        None => None,
    }
}

pub open spec fn user_node_spec(user_platform: Option<Platform>) -> Option<Version> {
    match user_platform {
        Some(platform) => Some(platform.node),
        None => None,
    }
}

pub open spec fn user_yarn_spec(user_platform: Option<Platform>) -> Option<Version> {
    match user_platform {
        Some(platform) => platform.yarn,
        None => None,
    }
}

/// Where an installed version comes from: the project, if the project pins
/// it; else the user's default, if it is that; else nowhere.
pub open spec fn version_source_spec(
    project_version: Option<Version>,
    manifest: Seq<char>,
    user_version: Option<Version>,
    version: Version,
) -> SourceView {
    if project_version == Some(version) {
        SourceView::Project(manifest)
    } else if user_version == Some(version) {
        SourceView::Default
    } else {
        SourceView::Unresolved
    }
}

/// The records of the first `n` installed versions that pass the filter, in
/// order.
pub open spec fn version_records_spec(
    versions: Seq<Version>,
    project_version: Option<Version>,
    manifest: Seq<char>,
    user_version: Option<Version>,
    filter: Filter,
    n: nat,
) -> Seq<NodeView>
    decreases n,
{
    if n == 0 || n > versions.len() {
        Seq::empty()
    } else {
        let before = version_records_spec(versions, project_version, manifest, user_version, filter, (n - 1) as nat);
        let source = version_source_spec(project_version, manifest, user_version, versions[n - 1]);
        if allowed_spec(source, filter) {
            before.push(NodeView { source, version: versions[n - 1] })
        } else {
            before
        }
    }
}

/// A record of Yarn with the source and version of the given record.
pub open spec fn as_yarn(record: NodeView) -> PackageManagerView {
    PackageManagerView { kind: PackageManagerKind::Yarn, source: record.source, version: record.version }
}

/// The tool in effect: what the project pins; where it pins nothing or
/// there is no project, the user's default.
pub open spec fn active_tool_spec(
    pins: bool,
    project_version: Option<Version>,
    manifest: Seq<char>,
    user_version: Option<Version>,
    filter: Filter,
) -> Option<NodeView> {
    let found = if pins {
        match project_version {
            Some(version) => Some(NodeView { source: SourceView::Project(manifest), version }),
            None => None,
        }
    } else {
        match user_version {
            Some(version) => Some(NodeView { source: SourceView::Default, version }),
            None => None,
        }
    };
    match found {
        Some(record) => if allowed_spec(record.source, filter) {
            Some(record)
        } else {
            None
        },
        None => None,
    }
}

/// Where a package comes from: the project, if the project depends on it,
/// else the user's default.
pub open spec fn package_source_spec(project: Option<Project>, name: Seq<char>) -> SourceView {
    match project {
        Some(project) => if project.has_dependency_spec(name) {
            SourceView::Project(project.manifest@)
        } else {
            SourceView::Default
        },
        None => SourceView::Default,
    }
}

/// Which installed packages a query looks at.
#[derive(Clone, Copy, Debug, PartialEq, Eq, Structural)]
pub enum Pick {
    /// All of them.
    Every,
    /// Those of the given name.
    Named,
    /// Those that expose a tool of the given name.
    Exposing,
}

pub open spec fn picked_spec(record: PackageRecord, pick: Pick, name: Seq<char>) -> bool {
    match pick {
        Pick::Every => true,
        Pick::Named => record.name@ == name,
        Pick::Exposing => names_contain(record.bins@, name),
    }
}

pub open spec fn package_record_view(record: PackageRecord, source: SourceView) -> PackageView {
    PackageView {
        name: record.name@,
        source,
        version: record.version,
        node: record.node,
        tools: names_view(record.bins@),
    }
}

/// The records of those of the first `n` installed packages that are picked
/// and pass the filter, in order.
pub open spec fn package_records_spec(
    records: Seq<PackageRecord>,
    project: Option<Project>,
    filter: Filter,
    pick: Pick,
    name: Seq<char>,
    n: nat,
) -> Seq<PackageView>
    decreases n,
{
    if n == 0 || n > records.len() {
        Seq::empty()
    } else {
        let before = package_records_spec(records, project, filter, pick, name, (n - 1) as nat);
        let record = records[n - 1];
        let source = package_source_spec(project, record.name@);
        if picked_spec(record, pick, name) && allowed_spec(source, filter) {
            before.push(package_record_view(record, source))
        } else {
            before
        }
    }
}

/// Whether some installed package is picked.
pub open spec fn any_picked_spec(records: Seq<PackageRecord>, pick: Pick, name: Seq<char>) -> bool {
    exists|i: int| 0 <= i < records.len() && picked_spec(#[trigger] records[i], pick, name)
}

/// All installed packages with their sources, narrowed by the filter.
pub open spec fn all_packages_spec(inventory: Catalog, project: Option<Project>, filter: Filter) -> Seq<PackageView> {
    package_records_spec(inventory.packages@, project, filter, Pick::Every, Seq::empty(), inventory.packages@.len())
}

pub open spec fn node_records_spec(
    inventory: Catalog,
    project: Option<Project>,
    user_platform: Option<Platform>,
    filter: Filter,
) -> Seq<NodeView> {
    version_records_spec(
        inventory.node.versions@,
        project_node_spec(project, inventory),
        manifest_spec(project),
        user_node_spec(user_platform),
        filter,
        inventory.node.versions@.len(),
    )
}

pub open spec fn yarn_records_spec(
    inventory: Catalog,
    project: Option<Project>,
    user_platform: Option<Platform>,
    filter: Filter,
) -> Seq<PackageManagerView> {
    version_records_spec(
        inventory.yarn.versions@,
        project_yarn_spec(project, inventory),
        manifest_spec(project),
        user_yarn_spec(user_platform),
        filter,
        inventory.yarn.versions@.len(),
    ).map_values(|record: NodeView| as_yarn(record))
}

/// Whether the project states a Yarn requirement.
pub open spec fn pins_yarn_spec(project: Option<Project>) -> bool {
    project is Some && project->Some_0.yarn is Some
}

pub open spec fn active_spec(
    project: Option<Project>,
    user_platform: Option<Platform>,
    inventory: Catalog,
    filter: Filter,
) -> ToolchainView {
    ToolchainView::Active {
        runtime: active_tool_spec(
            project is Some,
            project_node_spec(project, inventory),
            manifest_spec(project),
            user_node_spec(user_platform),
            filter,
        ),
        package_manager: match active_tool_spec(
            pins_yarn_spec(project),
            project_yarn_spec(project, inventory),
            manifest_spec(project),
            user_yarn_spec(user_platform),
            filter,
        ) {
            Some(record) => Some(as_yarn(record)),
            None => None,
        },
        packages: all_packages_spec(inventory, project, filter),
    }
}

pub open spec fn all_spec(project: Option<Project>, user_platform: Option<Platform>, inventory: Catalog) -> ToolchainView {
    ToolchainView::All {
        runtimes: node_records_spec(inventory, project, user_platform, Filter::All),
        package_managers: yarn_records_spec(inventory, project, user_platform, Filter::All),
        packages: all_packages_spec(inventory, project, Filter::All),
    }
}

/// The listing for a name: the installed packages of that name, if there is
/// one; else the packages that expose a tool of that name, if there is one;
/// else nothing.
pub open spec fn package_or_tool_spec(name: Seq<char>, inventory: Catalog, filter: Filter) -> Result<
    ToolchainView,
    ListErrorView,
> {
    let records = inventory.packages@;
    if any_picked_spec(records, Pick::Named, name) {
        Ok(ToolchainView::Packages(package_records_spec(records, None, filter, Pick::Named, name, records.len())))
    } else if any_picked_spec(records, Pick::Exposing, name) {
        Ok(
            ToolchainView::Tool {
                name,
                host_packages: package_records_spec(records, None, filter, Pick::Exposing, name, records.len()),
            },
        )
    } else {
        Err(ListErrorView::AmbiguousOrUnknownName(name))
    }
}

pub open spec fn found_view(found: Result<Toolchain, ListError>) -> Result<ToolchainView, ListErrorView> {
    match found {
        Ok(toolchain) => Ok(toolchain@),
        Err(error) => Err(error@),
    }
}

/// What a request lists. Both filters at once are refused; with no
/// subcommand the request is for what is in effect; `all` takes no filter.
pub open spec fn query_spec(
    request: List,
    project: Option<Project>,
    user_platform: Option<Platform>,
    inventory: Catalog,
) -> Result<ToolchainView, ListErrorView> {
    match filter_spec(request.current, request.default) {
        None => Err(ListErrorView::InvalidFilterCombination),
        Some(filter) => match request.subcommand {
            None => Ok(active_spec(project, user_platform, inventory, filter)),
            Some(Subcommand::All) => Ok(all_spec(project, user_platform, inventory)),
            Some(Subcommand::Node) => Ok(
                ToolchainView::Node(node_records_spec(inventory, project, user_platform, filter)),
            ),
            Some(Subcommand::Yarn) => Ok(
                ToolchainView::PackageManagers(yarn_records_spec(inventory, project, user_platform, filter)),
            ),
            Some(Subcommand::PackageOrTool { name }) => package_or_tool_spec(name@, inventory, filter),
        },
    }
}

fn is_version(candidate: Option<Version>, version: &Version) -> (same: bool)
    ensures
        same == (candidate == Some(*version)),
{
    match candidate {
        Some(other) => other.major == version.major && other.minor == version.minor && other.patch
            == version.patch,
        None => false,
    }
}

/// Where an installed version comes from.
pub fn version_source(
    project_version: Option<Version>,
    manifest: &str,
    user_version: Option<Version>,
    version: &Version,
) -> (source: Source)
    ensures
        source@ == version_source_spec(project_version, manifest@, user_version, *version),
{
    if is_version(project_version, version) {
        Source::Project(String::from_str(manifest))
    } else if is_version(user_version, version) {
        Source::Default
    } else {
        Source::Unresolved
    }
}

/// The records of the installed versions that pass the filter.
pub fn version_records(
    versions: &Vec<Version>,
    project_version: Option<Version>,
    manifest: &str,
    user_version: Option<Version>,
    filter: &Filter,
) -> (records: Vec<Node>)
    ensures
        node_views(records@) == version_records_spec(
            versions@,
            project_version,
            manifest@,
            user_version,
            *filter,
            versions@.len(),
        ),
{
    let mut records: Vec<Node> = Vec::new();
    let mut i: usize = 0;
    assert(node_views(records@) =~= Seq::<NodeView>::empty());
    while i < versions.len()
        invariant
            i <= versions.len(),
            node_views(records@) == version_records_spec(
                versions@,
                project_version,
                manifest@,
                user_version,
                *filter,
                i as nat,
            ),
        decreases versions.len() - i,
    {
        let ghost before = records@;
        let source = version_source(project_version, manifest, user_version, &versions[i]);
        if source.allowed_with(filter) {
            let record = Node { source, version: versions[i] };
            records.push(record);
            assert(node_views(records@) =~= node_views(before).push(record@));
        }
        i += 1;
    }
    records
}

/// The same records as records of Yarn.
pub fn yarn_records(nodes: &Vec<Node>) -> (managers: Vec<PackageManager>)
    ensures
        manager_views(managers@) == node_views(nodes@).map_values(|record: NodeView| as_yarn(record)),
{
    let mut managers: Vec<PackageManager> = Vec::new();
    let mut i: usize = 0;
    while i < nodes.len()
        invariant
            i <= nodes.len(),
            managers@.len() == i,
            forall|j: int| 0 <= j < i ==> (#[trigger] managers@[j])@ == as_yarn(nodes@[j]@),
        decreases nodes.len() - i,
    {
        managers.push(
            PackageManager {
                kind: PackageManagerKind::Yarn,
                source: nodes[i].source.duplicate(),
                version: nodes[i].version,
            },
        );
        i += 1;
    }
    assert(manager_views(managers@) =~= node_views(nodes@).map_values(|record: NodeView| as_yarn(record)));
    managers
}

/// The tool in effect, if it passes the filter.
pub fn active_tool(
    pins: bool,
    project_version: Option<Version>,
    manifest: &str,
    user_version: Option<Version>,
    filter: &Filter,
) -> (found: Option<Node>)
    ensures
        optional_node_view(found) == active_tool_spec(pins, project_version, manifest@, user_version, *filter),
{
    let found = if pins {
        match project_version {
            Some(version) => Some(Node { source: Source::Project(String::from_str(manifest)), version }),
            None => None,
        }
    } else {
        match user_version {
            Some(version) => Some(Node { source: Source::Default, version }),
            None => None,
        }
    };
    match found {
        Some(record) => if record.source.allowed_with(filter) {
            Some(record)
        } else {
            None
        },
        None => None,
    }
}

fn picked(record: &PackageRecord, pick: Pick, name: &str) -> (yes: bool)
    ensures
        yes == picked_spec(*record, pick, name@),
{
    match pick {
        Pick::Every => true,
        Pick::Named => same_text(record.name.as_str(), name),
        Pick::Exposing => contains_name(&record.bins, name),
    }
}

fn any_picked(records: &Vec<PackageRecord>, pick: Pick, name: &str) -> (yes: bool)
    ensures
        yes == any_picked_spec(records@, pick, name@),
{
    let mut i: usize = 0;
    while i < records.len()
        invariant
            i <= records.len(),
            forall|j: int| 0 <= j < i ==> !picked_spec(#[trigger] records@[j], pick, name@),
        decreases records.len() - i,
    {
        if picked(&records[i], pick, name) {
            return true;
        }
        i += 1;
    }
    false
}

/// Where a package comes from.
pub fn package_source(project: &Option<Project>, name: &str) -> (source: Source)
    ensures
        source@ == package_source_spec(*project, name@),
{
    match project {
        Some(project) => if project.has_dependency(name) {
            Source::Project(project.package_file())
        } else {
            Source::Default
        },
        None => Source::Default,
    }
}

/// The records of the installed packages that are picked and pass the
/// filter.
pub fn package_records(
    records: &Vec<PackageRecord>,
    project: &Option<Project>,
    filter: &Filter,
    pick: Pick,
    name: &str,
) -> (packages: Vec<Package>)
    ensures
        package_views(packages@) == package_records_spec(records@, *project, *filter, pick, name@, records@.len()),
{
    let mut packages: Vec<Package> = Vec::new();
    let mut i: usize = 0;
    assert(package_views(packages@) =~= Seq::<PackageView>::empty());
    while i < records.len()
        invariant
            i <= records.len(),
            package_views(packages@) == package_records_spec(records@, *project, *filter, pick, name@, i as nat),
        decreases records.len() - i,
    {
        let ghost before = packages@;
        let record = &records[i];
        let source = package_source(project, record.name.as_str());
        if picked(record, pick, name) && source.allowed_with(filter) {
            let package = Package {
                name: record.name.clone(),
                source,
                version: record.version,
                node: record.node,
                tools: copy_names(&record.bins),
            };
            assert(package@ == package_record_view(*record, source@));
            packages.push(package);
            assert(package_views(packages@) =~= package_views(before).push(package@));
        }
        i += 1;
    }
    packages
}

fn project_node(project: &Option<Project>, inventory: &Catalog) -> (found: Option<Version>)
    ensures
        found == project_node_spec(*project, *inventory),
{
    match project {
        Some(project) => inventory.node.resolve_local(&project.node),
        None => None,
    }
}

fn project_yarn(project: &Option<Project>, inventory: &Catalog) -> (found: Option<Version>)
    ensures
        found == project_yarn_spec(*project, *inventory),
{
    match project {
        Some(project) => match &project.yarn {
            Some(requirement) => inventory.yarn.resolve_local(requirement),
            None => None,
        },
        None => None,
    }
}

fn manifest(project: &Option<Project>) -> (path: String)
    ensures
        path@ == manifest_spec(*project),
{
    match project {
        Some(project) => project.package_file(),
        None => String::new(),
    }
}

fn user_node(user_platform: &Option<Platform>) -> (found: Option<Version>)
    ensures
        found == user_node_spec(*user_platform),
{
    match user_platform {
        Some(platform) => Some(platform.node),
        None => None,
    }
}

fn user_yarn(user_platform: &Option<Platform>) -> (found: Option<Version>)
    ensures
        found == user_yarn_spec(*user_platform),
{
    match user_platform {
        Some(platform) => platform.yarn,
        None => None,
    }
}

fn pins_yarn(project: &Option<Project>) -> (pins: bool)
    ensures
        pins == pins_yarn_spec(*project),
{
    match project {
        Some(project) => project.yarn.is_some(),
        None => false,
    }
}

fn node_records(
    inventory: &Catalog,
    project: &Option<Project>,
    user_platform: &Option<Platform>,
    filter: &Filter,
) -> (records: Vec<Node>)
    ensures
        node_views(records@) == node_records_spec(*inventory, *project, *user_platform, *filter),
{
    version_records(
        &inventory.node.versions,
        project_node(project, inventory),
        manifest(project).as_str(),
        user_node(user_platform),
        filter,
    )
}

fn yarn_manager_records(
    inventory: &Catalog,
    project: &Option<Project>,
    user_platform: &Option<Platform>,
    filter: &Filter,
) -> (records: Vec<PackageManager>)
    ensures
        manager_views(records@) == yarn_records_spec(*inventory, *project, *user_platform, *filter),
{
    let versions = version_records(
        &inventory.yarn.versions,
        project_yarn(project, inventory),
        manifest(project).as_str(),
        user_yarn(user_platform),
        filter,
    );
    yarn_records(&versions)
}

impl Toolchain {
    /// What is in effect now: the Node version, the Yarn version and the
    /// packages, each only if it passes the filter.
    pub fn active(
        project: &Option<Project>,
        user_platform: &Option<Platform>,
        inventory: &Catalog,
        filter: &Filter,
    ) -> (toolchain: Toolchain)
        ensures
            toolchain@ == active_spec(*project, *user_platform, *inventory, *filter),
    {
        let path = manifest(project);
        let runtime = active_tool(
            project.is_some(),
            project_node(project, inventory),
            path.as_str(),
            user_node(user_platform),
            filter,
        );
        let yarn = active_tool(
            pins_yarn(project),
            project_yarn(project, inventory),
            path.as_str(),
            user_yarn(user_platform),
            filter,
        );
        let package_manager = match yarn {
            Some(record) => Some(
                PackageManager { kind: PackageManagerKind::Yarn, source: record.source, version: record.version },
            ),
            None => None,
        };
        let packages = package_records(&inventory.packages, project, filter, Pick::Every, "");
        proof {
            reveal_strlit("");
            assert(""@ =~= Seq::<char>::empty());
        }
        Toolchain::Active { runtime, package_manager, packages }
    }

    /// Everything that is installed, in effect or not.
    pub fn all(project: &Option<Project>, user_platform: &Option<Platform>, inventory: &Catalog) -> (toolchain:
        Toolchain)
        ensures
            toolchain@ == all_spec(*project, *user_platform, *inventory),
    {
        let filter = Filter::All;
        let runtimes = node_records(inventory, project, user_platform, &filter);
        let package_managers = yarn_manager_records(inventory, project, user_platform, &filter);
        let packages = package_records(&inventory.packages, project, &filter, Pick::Every, "");
        proof {
            reveal_strlit("");
            assert(""@ =~= Seq::<char>::empty());
        }
        Toolchain::All { runtimes, package_managers, packages }
    }

    /// The installed Node versions that pass the filter.
    pub fn node(
        inventory: &Catalog,
        project: &Option<Project>,
        user_platform: &Option<Platform>,
        filter: &Filter,
    ) -> (toolchain: Toolchain)
        ensures
            toolchain@ == ToolchainView::Node(node_records_spec(*inventory, *project, *user_platform, *filter)),
    {
        Toolchain::Node(node_records(inventory, project, user_platform, filter))
    }

    /// The installed Yarn versions that pass the filter.
    pub fn yarn(
        inventory: &Catalog,
        project: &Option<Project>,
        user_platform: &Option<Platform>,
        filter: &Filter,
    ) -> (toolchain: Toolchain)
        ensures
            toolchain@ == ToolchainView::PackageManagers(
                yarn_records_spec(*inventory, *project, *user_platform, *filter),
            ),
    {
        Toolchain::PackageManagers(yarn_manager_records(inventory, project, user_platform, filter))
    }

    /// The installed packages of the given name, or else the packages that
    /// expose a tool of that name. Fails where the name is neither.
    pub fn package_or_tool(name: &str, inventory: &Catalog, filter: &Filter) -> (found: Result<Toolchain, ListError>)
        ensures
            found_view(found) == package_or_tool_spec(name@, *inventory, *filter),
    {
        let nobody: Option<Project> = None;
        if any_picked(&inventory.packages, Pick::Named, name) {
            Ok(Toolchain::Packages(package_records(&inventory.packages, &nobody, filter, Pick::Named, name)))
        } else if any_picked(&inventory.packages, Pick::Exposing, name) {
            Ok(
                Toolchain::Tool {
                    name: String::from_str(name),
                    host_packages: package_records(&inventory.packages, &nobody, filter, Pick::Exposing, name),
                },
            )
        } else {
            Err(ListError::AmbiguousOrUnknownName(String::from_str(name)))
        }
    }
}

impl List {
    /// Makes the listing that the request asks for.
    pub fn query(&self, project: &Option<Project>, user_platform: &Option<Platform>, inventory: &Catalog) -> (found:
        Result<Toolchain, ListError>)
        ensures
            found_view(found) == query_spec(*self, *project, *user_platform, *inventory),
    {
        match self.filter() {
            Err(error) => Err(error),
            Ok(filter) => match &self.subcommand {
                None => Ok(Toolchain::active(project, user_platform, inventory, &filter)),
                Some(Subcommand::All) => Ok(Toolchain::all(project, user_platform, inventory)),
                Some(Subcommand::Node) => Ok(Toolchain::node(inventory, project, user_platform, &filter)),
                Some(Subcommand::Yarn) => Ok(Toolchain::yarn(inventory, project, user_platform, &filter)),
                Some(Subcommand::PackageOrTool { name }) => Toolchain::package_or_tool(
                    name.as_str(),
                    inventory,
                    &filter,
                ),
            },
        }
    }
}

/// What the project pins outranks the user's default: a version that the
/// project pins is listed as the project's, whatever the default is.
pub proof fn project_outranks_default(
    project_version: Option<Version>,
    manifest: Seq<char>,
    user_version: Option<Version>,
    version: Version,
)
    requires
        project_version == Some(version),
    ensures
        version_source_spec(project_version, manifest, user_version, version) == SourceView::Project(manifest),
        active_tool_spec(true, project_version, manifest, user_version, Filter::Current) == Some(
            NodeView { source: SourceView::Project(manifest), version },
        ),
{
}

/// A name is refused exactly when no installed package has it and none
/// exposes a tool of it; the filter has no say in that.
pub proof fn package_or_tool_fails_iff(name: Seq<char>, inventory: Catalog, filter: Filter)
    ensures
        package_or_tool_spec(name, inventory, filter) is Err <==> (forall|i: int|
            0 <= i < inventory.packages@.len() ==> (#[trigger] inventory.packages@[i]).name@ != name
                && !names_contain(inventory.packages@[i].bins@, name)),
        package_or_tool_spec(name, inventory, filter) is Err ==> package_or_tool_spec(name, inventory, filter)
            == Err::<ToolchainView, ListErrorView>(ListErrorView::AmbiguousOrUnknownName(name)),
{
    let records = inventory.packages@;
    if any_picked_spec(records, Pick::Named, name) {
        let i = choose|i: int| 0 <= i < records.len() && picked_spec(#[trigger] records[i], Pick::Named, name);
        assert(records[i].name@ == name);
    } else if any_picked_spec(records, Pick::Exposing, name) {
        let i = choose|i: int| 0 <= i < records.len() && picked_spec(#[trigger] records[i], Pick::Exposing, name);
        assert(names_contain(records[i].bins@, name));
    } else {
        assert forall|i: int| 0 <= i < records.len() implies (#[trigger] records[i]).name@ != name && !names_contain(
            records[i].bins@,
            name,
        ) by {
            assert(!picked_spec(records[i], Pick::Named, name));
            assert(!picked_spec(records[i], Pick::Exposing, name));
        }
    }
}

/// Every record of a listing of versions passes the listing's filter.
pub proof fn version_records_pass_filter(
    versions: Seq<Version>,
    project_version: Option<Version>,
    manifest: Seq<char>,
    user_version: Option<Version>,
    filter: Filter,
    n: nat,
)
    ensures
        forall|i: int|
            0 <= i < version_records_spec(versions, project_version, manifest, user_version, filter, n).len()
                ==> allowed_spec(
                (#[trigger] version_records_spec(versions, project_version, manifest, user_version, filter, n)[i]).source,
                filter,
            ),
    decreases n,
{
    if n > 0 && n <= versions.len() {
        version_records_pass_filter(versions, project_version, manifest, user_version, filter, (n - 1) as nat);
    }
}

} // verus!
