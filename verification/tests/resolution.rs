use toolshim::resolve::{resolve, ToolIdentity};
use toolshim::session::{Catalog, Failure, Project, Session};
use toolshim::shim::{
    node_is_available, resolve_3p_shims, resolve_node_shims, resolve_npx_shims, resolve_shim,
    resolve_yarn_shims, Args, Shim, ShimKind,
};
use toolshim::version::{admission, best_match, Collection, Requirement, Version};

fn collection(default: Option<Version>, versions: Vec<Version>) -> Collection {
    Collection { default, versions }
}

fn catalog(node: Collection, yarn: Collection) -> Catalog {
    Catalog { node, yarn, packages: Vec::new() }
}

fn project(node: &str, yarn: Option<&str>, local_bins: Vec<&str>) -> Project {
    Project {
        manifest: String::from("/work/app/package.json"),
        node: Requirement::new(node),
        yarn: yarn.map(Requirement::new),
        bin_dir: String::from("/work/app/node_modules/.bin"),
        local_bins: local_bins.into_iter().map(String::from).collect(),
        dependencies: Vec::new(),
    }
}

fn session(project: Option<Project>, catalog: Catalog) -> Session {
    Session { project, catalog: Ok(catalog), home: String::from("/home/me/.tools") }
}

fn two_nodes() -> Collection {
    collection(None, vec![Version::new(14, 2, 0), Version::new(12, 0, 0)])
}

#[test]
fn project_node_resolves_to_the_matching_installed_version() {
    let s = session(Some(project("^14.0.0", None, vec![])), catalog(two_nodes(), collection(None, vec![])));
    let outcome = resolve(&s, &ToolIdentity::Node);
    assert!(matches!(outcome, Ok(ShimKind::Global(ref p)) if p == "/home/me/.tools/tools/image/node/14.2.0/bin/node"));
    let npm = resolve(&s, &ToolIdentity::Npm);
    assert!(matches!(npm, Ok(ShimKind::Global(ref p)) if p == "/home/me/.tools/tools/image/node/14.2.0/bin/npm"));
}

#[test]
fn project_node_takes_the_latest_of_several_matches() {
    let nodes = collection(
        Some(Version::new(12, 0, 0)),
        vec![Version::new(14, 2, 0), Version::new(14, 10, 1), Version::new(12, 0, 0), Version::new(14, 9, 9)],
    );
    let s = session(Some(project("^14.0.0", None, vec![])), catalog(nodes, collection(None, vec![])));
    let outcome = resolve_node_shims(&s, "node");
    assert!(matches!(outcome, Ok(ShimKind::Global(ref p)) if p == "/home/me/.tools/tools/image/node/14.10.1/bin/node"));
}

#[test]
fn yarn_without_project_requirement_uses_the_default() {
    let yarn = collection(Some(Version::new(1, 22, 0)), vec![Version::new(1, 22, 0)]);
    let s = session(Some(project("^14.0.0", None, vec![])), catalog(two_nodes(), yarn));
    let outcome = resolve(&s, &ToolIdentity::Yarn);
    assert!(matches!(outcome, Ok(ShimKind::Global(ref p)) if p == "/home/me/.tools/tools/image/yarn/1.22.0/bin/yarn"));
}

#[test]
fn yarn_with_project_requirement_ignores_the_default() {
    let yarn = collection(Some(Version::new(1, 22, 0)), vec![Version::new(1, 22, 0), Version::new(1, 12, 3)]);
    let s = session(Some(project("^14.0.0", Some("~1.12.0"), vec![])), catalog(two_nodes(), yarn));
    let outcome = resolve_yarn_shims(&s, "yarn");
    assert!(matches!(outcome, Ok(ShimKind::Global(ref p)) if p == "/home/me/.tools/tools/image/yarn/1.12.3/bin/yarn"));
}

#[test]
fn yarn_requirement_that_nothing_satisfies_is_promised() {
    let yarn = collection(Some(Version::new(1, 22, 0)), vec![Version::new(1, 22, 0)]);
    let s = session(Some(project("^14.0.0", Some("^2.0.0"), vec![])), catalog(two_nodes(), yarn));
    let outcome = resolve_yarn_shims(&s, "yarn");
    assert!(matches!(outcome, Ok(ShimKind::WillInstall(ref r)) if r.text == "^2.0.0"));
}

#[test]
fn yarn_without_anything_passes_through() {
    let s = session(None, catalog(two_nodes(), collection(None, vec![Version::new(1, 22, 0)])));
    assert!(matches!(resolve_yarn_shims(&s, "yarn"), Ok(ShimKind::System)));
}

#[test]
fn node_without_project_or_default_passes_through() {
    let s = session(None, catalog(two_nodes(), collection(None, vec![])));
    assert!(matches!(resolve_shim(&s, "node"), Ok(ShimKind::System)));
    assert!(matches!(resolve_shim(&s, "npm"), Ok(ShimKind::System)));
}

#[test]
fn node_without_project_uses_the_default() {
    let nodes = collection(Some(Version::new(12, 0, 0)), vec![Version::new(14, 2, 0), Version::new(12, 0, 0)]);
    let s = session(None, catalog(nodes, collection(None, vec![])));
    let outcome = resolve_shim(&s, "node");
    assert!(matches!(outcome, Ok(ShimKind::Global(ref p)) if p == "/home/me/.tools/tools/image/node/12.0.0/bin/node"));
}

#[test]
fn unsatisfied_node_is_promised_and_third_party_is_not_installed() {
    let nodes = collection(Some(Version::new(14, 2, 0)), vec![Version::new(14, 2, 0), Version::new(12, 0, 0)]);
    let s = session(Some(project("^16.0.0", None, vec![])), catalog(nodes, collection(None, vec![])));
    let node = resolve(&s, &ToolIdentity::Node);
    assert!(matches!(node, Ok(ShimKind::WillInstall(ref r)) if r.text == "^16.0.0"));
    let tool = resolve(&s, &ToolIdentity::ThirdPartyBinary(String::from("eslint")));
    assert!(matches!(tool, Ok(ShimKind::NotInstalled)));
}

#[test]
fn local_executable_wins_whatever_the_catalog_holds() {
    let s = session(Some(project("^14.0.0", None, vec!["tsc", "eslint"])), catalog(two_nodes(), collection(None, vec![])));
    let outcome = resolve_3p_shims(&s, "eslint");
    assert!(matches!(outcome, Ok(ShimKind::Local(ref p)) if p == "/work/app/node_modules/.bin/eslint"));
    let broken = Session {
        project: Some(project("^16.0.0", None, vec!["eslint"])),
        catalog: Err(Failure::new("catalog unreadable")),
        home: String::from("/home/me/.tools"),
    };
    let outcome = resolve_shim(&broken, "eslint");
    assert!(matches!(outcome, Ok(ShimKind::Local(ref p)) if p == "/work/app/node_modules/.bin/eslint"));
}

#[test]
fn local_executable_of_another_name_does_not_win() {
    let s = session(Some(project("^14.0.0", None, vec!["eslint-plugin"])), catalog(two_nodes(), collection(None, vec![])));
    let outcome = resolve_3p_shims(&s, "eslint");
    assert!(matches!(outcome, Ok(ShimKind::Global(ref p)) if p == "/home/me/.tools/tools/image/node/14.2.0/lib/node_modules/.bin/eslint"));
}

#[test]
fn reserved_names_never_resolve_to_a_local_executable() {
    let s = session(Some(project("^14.0.0", None, vec!["node", "npx", "yarn"])), catalog(two_nodes(), collection(None, vec![])));
    assert!(matches!(resolve_shim(&s, "node"), Ok(ShimKind::Global(_))));
    assert!(matches!(resolve_shim(&s, "npx"), Ok(ShimKind::Unimplemented)));
    assert!(matches!(resolve_shim(&s, "yarn"), Ok(ShimKind::System)));
}

#[test]
fn third_party_without_project_uses_default_node_or_the_system() {
    let nodes = collection(Some(Version::new(12, 0, 0)), vec![Version::new(12, 0, 0)]);
    let s = session(None, catalog(nodes, collection(None, vec![])));
    let outcome = resolve_shim(&s, "cowsay");
    assert!(matches!(outcome, Ok(ShimKind::Global(ref p)) if p == "/home/me/.tools/tools/image/node/12.0.0/lib/node_modules/.bin/cowsay"));
    let bare = session(None, catalog(collection(None, vec![Version::new(12, 0, 0)]), collection(None, vec![])));
    assert!(matches!(resolve_shim(&bare, "cowsay"), Ok(ShimKind::System)));
}

#[test]
fn npx_is_not_implemented() {
    let s = session(None, catalog(two_nodes(), collection(None, vec![])));
    assert!(matches!(resolve_npx_shims(&s, "npx"), Ok(ShimKind::Unimplemented)));
    assert!(matches!(resolve(&s, &ToolIdentity::Npx), Ok(ShimKind::Unimplemented)));
    assert!(matches!(resolve_shim(&s, "npx"), Ok(ShimKind::Unimplemented)));
}

#[test]
fn catalog_failure_is_handed_on_unchanged() {
    let s = Session {
        project: Some(project("^14.0.0", None, vec![])),
        catalog: Err(Failure::new("catalog unreadable")),
        home: String::from("/home/me/.tools"),
    };
    assert!(matches!(resolve_shim(&s, "node"), Err(ref f) if f.message == "catalog unreadable"));
    assert!(matches!(resolve_shim(&s, "yarn"), Err(ref f) if f.message == "catalog unreadable"));
    assert!(matches!(resolve_shim(&s, "eslint"), Err(ref f) if f.message == "catalog unreadable"));
    assert!(matches!(resolve_shim(&s, "npx"), Ok(ShimKind::Unimplemented)));
    let p = project("^14.0.0", None, vec![]);
    assert!(matches!(node_is_available(&p, &s), Err(ref f) if f.message == "catalog unreadable"));
    assert!(matches!(s.global_node(), Err(ref f) if f.message == "catalog unreadable"));
}

#[test]
fn dispatch_and_identity_agree() {
    let s = session(Some(project("^14.0.0", None, vec!["tsc"])), catalog(two_nodes(), collection(None, vec![])));
    for name in ["node", "npm", "yarn", "npx", "tsc", "eslint"] {
        let by_name = resolve_shim(&s, name).ok().map(|kind| kind.describe());
        let by_identity = resolve(&s, &ToolIdentity::of(name)).ok().map(|kind| kind.describe());
        assert_eq!(by_name, by_identity);
    }
    assert!(matches!(ToolIdentity::of("node"), ToolIdentity::Node));
    assert!(matches!(ToolIdentity::of("npm"), ToolIdentity::Npm));
    assert!(matches!(ToolIdentity::of("yarn"), ToolIdentity::Yarn));
    assert!(matches!(ToolIdentity::of("npx"), ToolIdentity::Npx));
    assert!(matches!(ToolIdentity::of("tsc"), ToolIdentity::ThirdPartyBinary(ref n) if n == "tsc"));
    assert_eq!(ToolIdentity::of("tsc").name(), "tsc");
    assert_eq!(ToolIdentity::Npm.name(), "npm");
}

#[test]
fn descriptions_of_outcomes() {
    assert_eq!(ShimKind::Local(String::from("/a/b")).describe(), "/a/b");
    assert_eq!(ShimKind::Global(String::from("/c/d")).describe(), "/c/d");
    assert_eq!(ShimKind::System.describe(), "[system]");
    assert_eq!(ShimKind::NotInstalled.describe(), "[executable not installed!]");
    assert_eq!(ShimKind::WillInstall(Requirement::new("^16.0.0")).describe(), "[will install version ^16.0.0]");
    assert_eq!(ShimKind::Unimplemented.describe(), "[shim not implemented!]");
}

#[test]
fn requirement_admits_what_semver_admits() {
    let caret = Requirement::new("^14.0.0");
    assert!(caret.admits(&Version::new(14, 2, 0)));
    assert!(caret.admits(&Version::new(14, 0, 0)));
    assert!(!caret.admits(&Version::new(12, 0, 0)));
    assert!(!caret.admits(&Version::new(15, 0, 0)));
    let range = Requirement::new(">=1.2.3, <1.8.0");
    assert!(range.admits(&Version::new(1, 7, 9)));
    assert!(!range.admits(&Version::new(1, 8, 0)));
    assert!(Requirement::new("*").admits(&Version::new(0, 0, 1)));
}

#[test]
fn text_that_is_no_requirement_admits_nothing() {
    let broken = Requirement::new("not a requirement");
    assert!(!broken.admits(&Version::new(1, 0, 0)));
    let nodes = collection(None, vec![Version::new(1, 0, 0)]);
    assert_eq!(nodes.resolve_local(&broken), None);
}

#[test]
fn admission_needs_a_definite_yes() {
    assert!(admission(Some(true)));
    assert!(!admission(Some(false)));
    assert!(!admission(None));
}

#[test]
fn version_text_is_dotted_decimal() {
    assert_eq!(Version::new(14, 2, 0).to_text(), "14.2.0");
    assert_eq!(Version::new(0, 0, 0).to_text(), "0.0.0");
    assert_eq!(Version::new(1, 22, 19).to_text(), "1.22.19");
    assert_eq!(Version::new(u64::MAX, 0, 7).to_text(), "18446744073709551615.0.7");
}

#[test]
fn versions_are_ordered_by_major_minor_patch() {
    assert!(Version::new(1, 2, 3).is_before(&Version::new(1, 2, 4)));
    assert!(Version::new(1, 2, 3).is_before(&Version::new(1, 3, 0)));
    assert!(Version::new(1, 9, 9).is_before(&Version::new(2, 0, 0)));
    assert!(!Version::new(1, 2, 3).is_before(&Version::new(1, 2, 3)));
    assert!(!Version::new(2, 0, 0).is_before(&Version::new(1, 9, 9)));
    assert!(!Version::new(1, 10, 0).is_before(&Version::new(1, 9, 0)));
}

#[test]
fn best_match_is_the_latest_marked_version() {
    let versions = vec![Version::new(1, 0, 0), Version::new(3, 0, 0), Version::new(2, 0, 0), Version::new(4, 0, 0)];
    assert_eq!(best_match(&versions, &vec![true, true, true, false]), Some(Version::new(3, 0, 0)));
    assert_eq!(best_match(&versions, &vec![true, false, true, false]), Some(Version::new(2, 0, 0)));
    assert_eq!(best_match(&versions, &vec![false, false, false, false]), None);
    assert_eq!(best_match(&versions, &vec![true, true]), Some(Version::new(3, 0, 0)));
    assert_eq!(best_match(&versions, &vec![]), None);
    assert_eq!(best_match(&vec![], &vec![true]), None);
}

#[test]
fn resolve_local_picks_the_latest_admitted() {
    let nodes = collection(None, vec![Version::new(14, 2, 0), Version::new(12, 0, 0), Version::new(14, 17, 6), Version::new(16, 1, 0)]);
    assert_eq!(nodes.resolve_local(&Requirement::new("^14.0.0")), Some(Version::new(14, 17, 6)));
    assert_eq!(nodes.resolve_local(&Requirement::new("<13")), Some(Version::new(12, 0, 0)));
    assert_eq!(nodes.resolve_local(&Requirement::new("^18")), None);
    assert_eq!(collection(None, vec![]).resolve_local(&Requirement::new("*")), None);
}

#[test]
fn project_answers_for_its_own_executables() {
    let p = Project {
        manifest: String::from("/p/package.json"),
        node: Requirement::new("*"),
        yarn: None,
        bin_dir: String::from("/p/node_modules/.bin"),
        local_bins: vec![String::from("tsc")],
        dependencies: vec![String::from("typescript")],
    };
    assert!(p.has_local_bin("tsc"));
    assert!(!p.has_local_bin("ts"));
    assert!(!p.has_local_bin("typescript"));
    assert!(p.has_dependency("typescript"));
    assert!(!p.has_dependency("tsc"));
    assert_eq!(p.local_bin_dir(), "/p/node_modules/.bin");
    assert_eq!(p.package_file(), "/p/package.json");
}

#[test]
fn shim_command_is_read_from_its_arguments() {
    let make = Shim::parse(Args { arg_shimname: Some(String::from("tsc")), flag_delete: false, flag_verbose: true });
    assert!(matches!(make, Shim::Create(ref n, true) if n == "tsc"));
    let drop = Shim::parse(Args { arg_shimname: Some(String::from("tsc")), flag_delete: true, flag_verbose: false });
    assert!(matches!(drop, Shim::Delete(ref n, false) if n == "tsc"));
    let list = Shim::parse(Args { arg_shimname: None, flag_delete: true, flag_verbose: true });
    assert!(matches!(list, Shim::List(true)));
    assert!(matches!(Shim::help(), Shim::Help));
}

#[test]
fn every_resolution_is_one_kind_of_outcome() {
    let contexts = vec![
        session(None, catalog(collection(None, vec![]), collection(None, vec![]))),
        session(None, catalog(collection(Some(Version::new(12, 0, 0)), vec![Version::new(12, 0, 0)]), collection(None, vec![]))),
        session(Some(project("^14.0.0", None, vec!["tsc"])), catalog(two_nodes(), collection(None, vec![]))),
        session(Some(project("^16.0.0", Some("^1.0.0"), vec![])), catalog(two_nodes(), collection(None, vec![]))),
    ];
    for context in &contexts {
        for name in ["node", "npm", "yarn", "npx", "tsc", "eslint"] {
            let kind = resolve(context, &ToolIdentity::of(name)).expect("the catalog is there");
            let met = [
                matches!(kind, ShimKind::Local(_)),
                matches!(kind, ShimKind::Global(_)),
                matches!(kind, ShimKind::System),
                matches!(kind, ShimKind::NotInstalled),
                matches!(kind, ShimKind::WillInstall(_)),
                matches!(kind, ShimKind::Unimplemented),
            ];
            assert_eq!(met.iter().filter(|yes| **yes).count(), 1);
        }
    }
}
