//! The records of a toolchain listing and the choices that narrow it.

use vstd::prelude::*;
use vstd::string::*;
use crate::text::{names_view, same_text};
use crate::version::Version;

verus! {

/// How a listing is rendered.
#[derive(Clone, Copy, Debug, PartialEq, Eq, Structural)]
pub enum Format {
    Human,
    Plain,
}

/// The format that a name stands for: `human` or `plain`, and nothing else.
pub open spec fn format_spec(s: Seq<char>) -> Option<Format> {
    if s == "human"@ {
        Some(Format::Human)
    } else if s == "plain"@ {
        Some(Format::Plain)
    } else {
        None
    }
}

impl Format {
    /// Reads a format's name.
    pub fn from_str(s: &str) -> (parsed: Result<Format, String>)
        ensures
            match parsed {
                Ok(format) => format_spec(s@) == Some(format),
                Err(message) => format_spec(s@).is_none() && message@ == "No"@,
            },
    {
        if same_text(s, "human") {
            Ok(Format::Human)
        } else if same_text(s, "plain") {
            Ok(Format::Plain)
        } else {
            Err(String::from_str("No"))
        }
    }
}

/// How a listing is narrowed.
#[derive(Clone, Copy, Debug, PartialEq, Eq, Structural)]
pub enum Filter {
    /// Only what is in effect now: pinned by the project or the user's
    /// default.
    Current,
    /// Only the user's defaults.
    Default,
    /// Everything.
    All,
}

/// Where a record's version comes from, as the user sees it.
#[derive(Debug)]
pub enum Source {
    /// From the project whose manifest is at this path.
    Project(String),
    /// The user's default.
    Default,
    /// Installed, but in effect nowhere.
    Unresolved,
}

pub enum SourceView {
    Project(Seq<char>),
    Default,
    Unresolved,
}

impl View for Source {
    type V = SourceView;

    open spec fn view(&self) -> SourceView {
        match self {
            Source::Project(path) => SourceView::Project(path@),
            Source::Default => SourceView::Default,
            Source::Unresolved => SourceView::Unresolved,
        }
    }
}

/// Whether a record of the given source passes a filter: `Current` lets
/// projects and defaults pass, `Default` only defaults, `All` everything.
pub open spec fn allowed_spec(source: SourceView, filter: Filter) -> bool {
    match filter {
        Filter::Default => source is Default,
        Filter::Current => source is Default || source is Project,
        Filter::All => true,
    }
}

/// What follows a version in a listing to say where it comes from.
pub open spec fn source_label_spec(source: SourceView) -> Seq<char> {
    match source {
        SourceView::Project(path) => " (current @ "@ + path + ")"@,
        SourceView::Default => " (default)"@,
        SourceView::Unresolved => Seq::empty(),
    }
}

impl Source {
    /// Whether a record of this source passes the filter.
    pub fn allowed_with(&self, filter: &Filter) -> (allowed: bool)
        ensures
            allowed == allowed_spec(self@, *filter),
    {
        match filter {
            Filter::Default => match self {
                Source::Default => true,
                _ => false,
            },
            Filter::Current => match self {
                Source::Default | Source::Project(_) => true,
                _ => false,
            },
            Filter::All => true,
        }
    }

    /// What follows a version in a listing to say where it comes from.
    pub fn label(&self) -> (text: String)
        ensures
            text@ == source_label_spec(self@),
    {
        match self {
            Source::Project(path) => String::from_str(" (current @ ").concat(path.as_str()).concat(")"),
            Source::Default => String::from_str(" (default)"),
            Source::Unresolved => String::new(),
        }
    }

    /// The same source again.
    pub fn duplicate(&self) -> (copy: Source)
        ensures
            copy@ == self@,
    {
        match self {
            Source::Project(path) => Source::Project(path.clone()),
            Source::Default => Source::Default,
            Source::Unresolved => Source::Unresolved,
        }
    }
}

/// A package and the executables it exposes.
#[derive(Debug)]
pub struct Package {
    pub name: String,
    pub source: Source,
    /// The package's own version.
    pub version: Version,
    /// The Node version that the package was built against.
    pub node: Version,
    /// The names of the executables that the package exposes.
    pub tools: Vec<String>,
}

pub struct PackageView {
    pub name: Seq<char>,
    pub source: SourceView,
    pub version: Version,
    pub node: Version,
    pub tools: Seq<Seq<char>>,
}

impl View for Package {
    type V = PackageView;

    open spec fn view(&self) -> PackageView {
        PackageView {
            name: self.name@,
            source: self.source@,
            version: self.version,
            node: self.node,
            tools: names_view(self.tools@),
        }
    }
}

/// A Node version, with npm in its train.
#[derive(Debug)]
pub struct Node {
    pub source: Source,
    pub version: Version,
}

pub struct NodeView {
    pub source: SourceView,
    pub version: Version,
}

impl View for Node {
    type V = NodeView;

    open spec fn view(&self) -> NodeView {
        NodeView { source: self.source@, version: self.version }
    }
}

#[derive(Clone, Copy, Debug, PartialEq, Eq, Structural)]
pub enum PackageManagerKind {
    Yarn,
    Npm,
}

pub open spec fn kind_name_spec(kind: PackageManagerKind) -> Seq<char> {
    match kind {
        PackageManagerKind::Npm => "npm"@,
        PackageManagerKind::Yarn => "yarn"@,
    }
}

impl PackageManagerKind {
    /// The package manager's name.
    pub fn name(&self) -> (name: String)
        ensures
            name@ == kind_name_spec(*self),
    {
        match self {
            PackageManagerKind::Npm => String::from_str("npm"),
            PackageManagerKind::Yarn => String::from_str("yarn"),
        }
    }
}

/// A version of a package manager.
#[derive(Debug)]
pub struct PackageManager {
    pub kind: PackageManagerKind,
    pub source: Source,
    pub version: Version,
}

pub struct PackageManagerView {
    pub kind: PackageManagerKind,
    pub source: SourceView,
    pub version: Version,
}

impl View for PackageManager {
    type V = PackageManagerView;

    open spec fn view(&self) -> PackageManagerView {
        PackageManagerView { kind: self.kind, source: self.source@, version: self.version }
    }
}

/// What is to be listed.
#[derive(Debug)]
pub enum Subcommand {
    /// Every item of the toolchain.
    All,
    /// The Node versions.
    Node,
    /// The Yarn versions.
    Yarn,
    /// The versions of a package, or of the package that exposes a tool.
    PackageOrTool { name: String },
}

impl Subcommand {
    /// Reads what is to be listed: `all`, `node`, `yarn`, or else the name
    /// of a package or tool.
    pub fn from(s: &str) -> (subcommand: Subcommand)
        ensures
            s@ == "all"@ ==> subcommand is All,
            s@ != "all"@ && s@ == "node"@ ==> subcommand is Node,
            s@ != "all"@ && s@ != "node"@ && s@ == "yarn"@ ==> subcommand is Yarn,
            s@ != "all"@ && s@ != "node"@ && s@ != "yarn"@ ==> subcommand is PackageOrTool
                && subcommand->name@ == s@,
    {
        if same_text(s, "all") {
            Subcommand::All
        } else if same_text(s, "node") {
            Subcommand::Node
        } else if same_text(s, "yarn") {
            Subcommand::Yarn
        } else {
            Subcommand::PackageOrTool { name: String::from_str(s) }
        }
    }
}

/// Why a listing could not be made.
#[derive(Debug)]
pub enum ListError {
    /// No installed package has this name and none exposes a tool of it.
    AmbiguousOrUnknownName(String),
    /// Both the current and the default toolchain were asked for.
    InvalidFilterCombination,
}

pub enum ListErrorView {
    AmbiguousOrUnknownName(Seq<char>),
    InvalidFilterCombination,
}

impl View for ListError {
    type V = ListErrorView;

    open spec fn view(&self) -> ListErrorView {
        match self {
            ListError::AmbiguousOrUnknownName(name) => ListErrorView::AmbiguousOrUnknownName(name@),
            ListError::InvalidFilterCombination => ListErrorView::InvalidFilterCombination,
        }
    }
}

/// The filter that the two flags ask for; both at once ask for none.
pub open spec fn filter_spec(current: bool, default: bool) -> Option<Filter> {
    if current && default {
        None
    } else if current {
        Some(Filter::Current)
    } else if default {
        Some(Filter::Default)
    } else {
        Some(Filter::All)
    }
}

/// A request for a listing.
#[derive(Debug)]
pub struct List {
    pub subcommand: Option<Subcommand>,
    /// The format, where the user chose one.
    pub format: Option<Format>,
    /// Show what is in effect now.
    pub current: bool,
    /// Show the user's defaults.
    pub default: bool,
}

impl List {
    /// The format of the output: the user's choice, or else the human form
    /// on a terminal and the plain form elsewhere.
    pub fn output_format(&self, on_terminal: bool) -> (format: Format)
        ensures
            format == (match self.format {
                Some(chosen) => chosen,
                None => if on_terminal {
                    Format::Human
                } else {
                    Format::Plain
                },
            }),
    {
        match self.format {
            Some(chosen) => chosen,
            None => if on_terminal {
                Format::Human
            } else {
                Format::Plain
            },
        }
    }

    /// The filter that the flags ask for.
    pub fn filter(&self) -> (filter: Result<Filter, ListError>)
        ensures
            match filter {
                Ok(chosen) => filter_spec(self.current, self.default) == Some(chosen),
                Err(error) => filter_spec(self.current, self.default).is_none()
                    && error is InvalidFilterCombination,
            },
    {
        if self.current && self.default {
            Err(ListError::InvalidFilterCombination)
        } else if self.current {
            Ok(Filter::Current)
        } else if self.default {
            Ok(Filter::Default)
        } else {
            Ok(Filter::All)
        }
    }
}

} // verus!
