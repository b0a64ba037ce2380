use toolshim::list::{Filter, Format, List, ListError, PackageManagerKind, Source, Subcommand};
use toolshim::session::{Catalog, PackageRecord, Platform, Project};
use toolshim::toolchain::{
    active_tool, package_records, package_source, version_records, version_source, yarn_records, Pick,
    Toolchain,
};
use toolshim::version::{Collection, Requirement, Version};

fn v(major: u64, minor: u64, patch: u64) -> Version {
    Version::new(major, minor, patch)
}

fn the_project() -> Option<Project> {
    Some(Project {
        manifest: String::from("/work/package.json"),
        node: Requirement::new("^14.0.0"),
        yarn: None,
        bin_dir: String::from("/work/node_modules/.bin"),
        local_bins: Vec::new(),
        dependencies: vec![String::from("typescript")],
    })
}

fn the_user() -> Option<Platform> {
    Some(Platform { node: v(12, 0, 0), yarn: Some(v(1, 22, 0)) })
}

fn package(name: &str, version: Version, node: Version, bins: &[&str]) -> PackageRecord {
    PackageRecord { name: String::from(name), version, node, bins: bins.iter().map(|b| String::from(*b)).collect() }
}

fn the_inventory() -> Catalog {
    Catalog {
        node: Collection { default: Some(v(12, 0, 0)), versions: vec![v(14, 2, 0), v(12, 0, 0), v(10, 1, 0)] },
        yarn: Collection { default: Some(v(1, 22, 0)), versions: vec![v(1, 22, 0), v(1, 12, 3)] },
        packages: vec![
            package("typescript", v(4, 0, 2), v(14, 2, 0), &["tsc", "tsserver"]),
            package("cowsay", v(1, 4, 0), v(12, 0, 0), &["cowsay", "cowthink"]),
        ],
    }
}

fn source_text(source: &Source) -> String {
    match source {
        Source::Project(path) => format!("project:{}", path),
        Source::Default => String::from("default"),
        Source::Unresolved => String::from("none"),
    }
}

#[test]
fn current_filter_keeps_project_and_default_records() {
    let records = version_records(&vec![v(14, 2, 0), v(12, 0, 0), v(10, 1, 0)], Some(v(14, 2, 0)), "/work/package.json", Some(v(12, 0, 0)), &Filter::Current);
    let shown: Vec<(String, Version)> = records.iter().map(|r| (source_text(&r.source), r.version)).collect();
    assert_eq!(
        shown,
        vec![(String::from("project:/work/package.json"), v(14, 2, 0)), (String::from("default"), v(12, 0, 0))]
    );
}

#[test]
fn default_filter_keeps_only_default_records() {
    let Toolchain::Node(records) = Toolchain::node(&the_inventory(), &the_project(), &the_user(), &Filter::Default) else {
        panic!("not a listing of Node versions");
    };
    assert_eq!(records.len(), 1);
    assert!(matches!(records[0].source, Source::Default));
    assert_eq!(records[0].version, v(12, 0, 0));
}

#[test]
fn filters_by_source() {
    let project = Source::Project(String::from("/p/package.json"));
    assert!(project.allowed_with(&Filter::Current));
    assert!(!project.allowed_with(&Filter::Default));
    assert!(project.allowed_with(&Filter::All));
    assert!(Source::Default.allowed_with(&Filter::Current));
    assert!(Source::Default.allowed_with(&Filter::Default));
    assert!(Source::Default.allowed_with(&Filter::All));
    assert!(!Source::Unresolved.allowed_with(&Filter::Current));
    assert!(!Source::Unresolved.allowed_with(&Filter::Default));
    assert!(Source::Unresolved.allowed_with(&Filter::All));
}

#[test]
fn source_labels() {
    assert_eq!(Source::Project(String::from("/p/package.json")).label(), " (current @ /p/package.json)");
    assert_eq!(Source::Default.label(), " (default)");
    assert_eq!(Source::Unresolved.label(), "");
    assert_eq!(source_text(&Source::Project(String::from("/q")).duplicate()), "project:/q");
}

#[test]
fn project_outranks_the_default_for_the_same_version() {
    let source = version_source(Some(v(14, 2, 0)), "/m", Some(v(14, 2, 0)), &v(14, 2, 0));
    assert_eq!(source_text(&source), "project:/m");
    assert_eq!(source_text(&version_source(Some(v(14, 2, 0)), "/m", Some(v(12, 0, 0)), &v(12, 0, 0))), "default");
    assert_eq!(source_text(&version_source(Some(v(14, 2, 0)), "/m", Some(v(12, 0, 0)), &v(10, 0, 0))), "none");
    assert_eq!(source_text(&version_source(None, "", None, &v(10, 0, 0))), "none");
}

#[test]
fn active_toolchain_in_a_project_without_yarn_requirement() {
    let Toolchain::Active { runtime, package_manager, packages } =
        Toolchain::active(&the_project(), &the_user(), &the_inventory(), &Filter::Current)
    else {
        panic!("not the toolchain in effect");
    };
    let runtime = runtime.expect("a runtime is in effect");
    assert_eq!(source_text(&runtime.source), "project:/work/package.json");
    assert_eq!(runtime.version, v(14, 2, 0));
    let yarn = package_manager.expect("yarn is in effect");
    assert_eq!(yarn.kind, PackageManagerKind::Yarn);
    assert_eq!(source_text(&yarn.source), "default");
    assert_eq!(yarn.version, v(1, 22, 0));
    let shown: Vec<(String, String)> = packages.iter().map(|p| (p.name.clone(), source_text(&p.source))).collect();
    assert_eq!(
        shown,
        vec![
            (String::from("typescript"), String::from("project:/work/package.json")),
            (String::from("cowsay"), String::from("default")),
        ]
    );
    assert_eq!(packages[0].node, v(14, 2, 0));
    assert_eq!(packages[0].version, v(4, 0, 2));
    assert_eq!(packages[0].tools, vec!["tsc", "tsserver"]);
}

#[test]
fn active_toolchain_under_the_default_filter_drops_project_records() {
    let Toolchain::Active { runtime, package_manager, packages } =
        Toolchain::active(&the_project(), &the_user(), &the_inventory(), &Filter::Default)
    else {
        panic!("not the toolchain in effect");
    };
    assert!(runtime.is_none());
    assert!(package_manager.is_some());
    assert_eq!(packages.len(), 1);
    assert_eq!(packages[0].name, "cowsay");
}

#[test]
fn active_toolchain_without_project_is_the_users() {
    let Toolchain::Active { runtime, package_manager, packages } =
        Toolchain::active(&None, &the_user(), &the_inventory(), &Filter::All)
    else {
        panic!("not the toolchain in effect");
    };
    let runtime = runtime.expect("a runtime is in effect");
    assert_eq!(source_text(&runtime.source), "default");
    assert_eq!(runtime.version, v(12, 0, 0));
    assert_eq!(package_manager.expect("yarn is in effect").version, v(1, 22, 0));
    assert_eq!(packages.len(), 2);
    let Toolchain::Active { runtime, package_manager, .. } =
        Toolchain::active(&None, &None, &the_inventory(), &Filter::All)
    else {
        panic!("not the toolchain in effect");
    };
    assert!(runtime.is_none());
    assert!(package_manager.is_none());
}

#[test]
fn active_tool_prefers_what_the_project_pins() {
    let pinned = active_tool(true, Some(v(14, 2, 0)), "/m", Some(v(12, 0, 0)), &Filter::Current).expect("pinned");
    assert_eq!(source_text(&pinned.source), "project:/m");
    assert_eq!(pinned.version, v(14, 2, 0));
    assert!(active_tool(true, None, "/m", Some(v(12, 0, 0)), &Filter::Current).is_none());
    assert!(active_tool(true, Some(v(14, 2, 0)), "/m", Some(v(12, 0, 0)), &Filter::Default).is_none());
    let fallback = active_tool(false, Some(v(14, 2, 0)), "/m", Some(v(12, 0, 0)), &Filter::Default).expect("default");
    assert_eq!(source_text(&fallback.source), "default");
    assert_eq!(fallback.version, v(12, 0, 0));
}

#[test]
fn everything_installed_is_listed_with_its_source() {
    let Toolchain::All { runtimes, package_managers, packages } =
        Toolchain::all(&the_project(), &the_user(), &the_inventory())
    else {
        panic!("not the whole toolchain");
    };
    let nodes: Vec<(String, Version)> = runtimes.iter().map(|r| (source_text(&r.source), r.version)).collect();
    assert_eq!(
        nodes,
        vec![
            (String::from("project:/work/package.json"), v(14, 2, 0)),
            (String::from("default"), v(12, 0, 0)),
            (String::from("none"), v(10, 1, 0)),
        ]
    );
    let yarns: Vec<(String, Version)> = package_managers.iter().map(|r| (source_text(&r.source), r.version)).collect();
    assert_eq!(yarns, vec![(String::from("default"), v(1, 22, 0)), (String::from("none"), v(1, 12, 3))]);
    assert_eq!(packages.len(), 2);
}

#[test]
fn yarn_listing_marks_records_as_yarn() {
    let Toolchain::PackageManagers(records) = Toolchain::yarn(&the_inventory(), &None, &the_user(), &Filter::Current) else {
        panic!("not a listing of package managers");
    };
    assert_eq!(records.len(), 1);
    assert_eq!(records[0].kind, PackageManagerKind::Yarn);
    assert_eq!(records[0].version, v(1, 22, 0));
    assert_eq!(records[0].kind.name(), "yarn");
    assert_eq!(PackageManagerKind::Npm.name(), "npm");
    assert!(yarn_records(&Vec::new()).is_empty());
}

#[test]
fn unknown_name_is_neither_package_nor_tool() {
    let found = Toolchain::package_or_tool("left-pad", &the_inventory(), &Filter::All);
    assert!(matches!(found, Err(ListError::AmbiguousOrUnknownName(ref name)) if name == "left-pad"));
}

#[test]
fn name_of_a_package_lists_the_package() {
    let found = Toolchain::package_or_tool("cowsay", &the_inventory(), &Filter::All);
    let Ok(Toolchain::Packages(packages)) = found else {
        panic!("not a listing of packages");
    };
    assert_eq!(packages.len(), 1);
    assert_eq!(packages[0].name, "cowsay");
    assert_eq!(packages[0].tools, vec!["cowsay", "cowthink"]);
    assert_eq!(packages[0].node, v(12, 0, 0));
}

#[test]
fn name_of_a_tool_lists_its_host_packages() {
    let found = Toolchain::package_or_tool("tsc", &the_inventory(), &Filter::Current);
    let Ok(Toolchain::Tool { name, host_packages }) = found else {
        panic!("not a listing of a tool");
    };
    assert_eq!(name, "tsc");
    assert_eq!(host_packages.len(), 1);
    assert_eq!(host_packages[0].name, "typescript");
    assert!(matches!(host_packages[0].source, Source::Default));
}

#[test]
fn packages_are_picked_by_name_or_by_tool() {
    let inventory = the_inventory();
    assert_eq!(package_records(&inventory.packages, &None, &Filter::All, Pick::Every, "").len(), 2);
    assert_eq!(package_records(&inventory.packages, &None, &Filter::All, Pick::Named, "tsc").len(), 0);
    assert_eq!(package_records(&inventory.packages, &None, &Filter::All, Pick::Exposing, "cowthink").len(), 1);
    assert_eq!(source_text(&package_source(&the_project(), "typescript")), "project:/work/package.json");
    assert_eq!(source_text(&package_source(&the_project(), "cowsay")), "default");
    assert_eq!(source_text(&package_source(&None, "typescript")), "default");
}

#[test]
fn format_names() {
    assert_eq!(Format::from_str("human"), Ok(Format::Human));
    assert_eq!(Format::from_str("plain"), Ok(Format::Plain));
    assert_eq!(Format::from_str("Human"), Err(String::from("No")));
    assert_eq!(Format::from_str(""), Err(String::from("No")));
}

#[test]
fn subcommand_names() {
    assert!(matches!(Subcommand::from("all"), Subcommand::All));
    assert!(matches!(Subcommand::from("node"), Subcommand::Node));
    assert!(matches!(Subcommand::from("yarn"), Subcommand::Yarn));
    assert!(matches!(Subcommand::from("npm"), Subcommand::PackageOrTool { ref name } if name == "npm"));
}

#[test]
fn output_format_follows_the_choice_or_the_terminal() {
    let mut request = List { subcommand: None, format: None, current: false, default: false };
    assert_eq!(request.output_format(true), Format::Human);
    assert_eq!(request.output_format(false), Format::Plain);
    request.format = Some(Format::Plain);
    assert_eq!(request.output_format(true), Format::Plain);
    request.format = Some(Format::Human);
    assert_eq!(request.output_format(false), Format::Human);
}

#[test]
fn filter_flags() {
    let request = |current: bool, default: bool| List { subcommand: None, format: None, current, default };
    assert!(matches!(request(true, false).filter(), Ok(Filter::Current)));
    assert!(matches!(request(false, true).filter(), Ok(Filter::Default)));
    assert!(matches!(request(false, false).filter(), Ok(Filter::All)));
    assert!(matches!(request(true, true).filter(), Err(ListError::InvalidFilterCombination)));
}

#[test]
fn query_follows_the_subcommand() {
    let request = |subcommand: Option<Subcommand>, current: bool, default: bool| List { subcommand, format: None, current, default };
    let (project, user, inventory) = (the_project(), the_user(), the_inventory());
    assert!(matches!(request(None, true, false).query(&project, &user, &inventory), Ok(Toolchain::Active { .. })));
    assert!(matches!(request(Some(Subcommand::All), false, true).query(&project, &user, &inventory), Ok(Toolchain::All { ref runtimes, .. }) if runtimes.len() == 3));
    assert!(matches!(request(Some(Subcommand::Node), false, true).query(&project, &user, &inventory), Ok(Toolchain::Node(ref nodes)) if nodes.len() == 1));
    assert!(matches!(request(Some(Subcommand::Yarn), false, false).query(&project, &user, &inventory), Ok(Toolchain::PackageManagers(ref yarns)) if yarns.len() == 2));
    assert!(matches!(request(Some(Subcommand::from("left-pad")), false, false).query(&project, &user, &inventory), Err(ListError::AmbiguousOrUnknownName(_))));
    assert!(matches!(request(Some(Subcommand::Node), true, true).query(&project, &user, &inventory), Err(ListError::InvalidFilterCombination)));
}

#[test]
fn listing_and_shim_agree_on_what_is_in_effect() {
    let session = toolshim::session::Session {
        project: the_project(),
        catalog: Ok(the_inventory()),
        home: String::from("/h"),
    };
    let Toolchain::Active { runtime, package_manager, .. } =
        Toolchain::active(&session.project, &the_user(), &the_inventory(), &Filter::All)
    else {
        panic!("not the toolchain in effect");
    };
    let node = runtime.expect("a runtime is in effect");
    let yarn = package_manager.expect("yarn is in effect");
    let node_shim = toolshim::shim::resolve_shim(&session, "node").ok().map(|kind| kind.describe());
    let yarn_shim = toolshim::shim::resolve_shim(&session, "yarn").ok().map(|kind| kind.describe());
    assert_eq!(node_shim, Some(format!("/h/tools/image/node/{}/bin/node", node.version.to_text())));
    assert_eq!(yarn_shim, Some(format!("/h/tools/image/yarn/{}/bin/yarn", yarn.version.to_text())));
    assert_eq!(node.version, v(14, 2, 0));
    assert_eq!(yarn.version, v(1, 22, 0));
}
