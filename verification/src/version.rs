//! Versions of installed tools and the requirements that projects place on
//! them.

use vstd::prelude::*;
use vstd::string::*;

verus! {

/// What `semver::VersionReq::parse` followed by `semver::VersionReq::matches`
/// gives for a requirement text and a release version: `None` where the text
/// is no requirement, else whether the requirement admits the version.
pub uninterp spec fn requirement_admits(requirement: Seq<char>, major: u64, minor: u64, patch: u64) -> Option<bool>;

/// The text that `semver::Version` displays for a release version.
pub uninterp spec fn version_text(major: u64, minor: u64, patch: u64) -> Seq<char>;

/// Asks `semver` whether a requirement admits a release version. The text is
/// parsed by `semver::VersionReq::parse`; the answer is that of
/// `semver::VersionReq::matches` on `semver::Version::new(major, minor, patch)`,
/// and `None` where the text does not parse. The contract only gives the
/// answer its name.
#[verifier::external_body]
fn semver_matches(requirement: &str, major: u64, minor: u64, patch: u64) -> (answer: Option<bool>)
    ensures
        answer == requirement_admits(requirement@, major, minor, patch),
{
    match semver::VersionReq::parse(requirement) {
        Ok(parsed) => Some(parsed.matches(&semver::Version::new(major, minor, patch))),
        Err(_) => None,
    }
}

/// Renders a release version through the `Display` impl of `semver::Version`,
/// on `semver::Version::new(major, minor, patch)`. The contract only gives
/// the text its name.
#[verifier::external_body]
fn semver_display(major: u64, minor: u64, patch: u64) -> (text: String)
    ensures
        text@ == version_text(major, minor, patch),
{
    semver::Version::new(major, minor, patch).to_string()
}

/// A release version of a tool.
#[derive(Clone, Copy, Debug, PartialEq, Eq, Structural)]
pub struct Version {
    pub major: u64,
    pub minor: u64,
    pub patch: u64,
}

impl Version {
    /// Whether `self` is an earlier release than `other`.
    pub open spec fn precedes(self, other: Version) -> bool {
        self.major < other.major || (self.major == other.major && (self.minor < other.minor || (
        self.minor == other.minor && self.patch < other.patch)))
    }

    /// The text of this version.
    pub open spec fn text(self) -> Seq<char> {
        version_text(self.major, self.minor, self.patch)
    }

    pub fn new(major: u64, minor: u64, patch: u64) -> (version: Version)
        ensures
            version == (Version { major, minor, patch }),
    {
        Version { major, minor, patch }
    }

    /// Whether `self` is an earlier release than `other`.
    pub fn is_before(&self, other: &Version) -> (before: bool)
        ensures
            before == self.precedes(*other),
    {
        self.major < other.major || (self.major == other.major && (self.minor < other.minor || (
        self.minor == other.minor && self.patch < other.patch)))
    }

    /// The text of this version, as it stands in paths and listings.
    pub fn to_text(&self) -> (text: String)
        ensures
            text@ == self.text(),
    {
        semver_display(self.major, self.minor, self.patch)
    }
}

/// A version requirement, kept as the text in which it was declared.
#[derive(Debug)]
pub struct Requirement {
    pub text: String,
}

impl View for Requirement {
    type V = Seq<char>;

    open spec fn view(&self) -> Seq<char> {
        self.text@
    }
}

/// Whether the requirement with the given text admits `version`. A text that
/// is no requirement admits nothing.
pub open spec fn admits_spec(requirement: Seq<char>, version: Version) -> bool {
    requirement_admits(requirement, version.major, version.minor, version.patch) == Some(true)
}

impl Requirement {
    pub fn new(text: &str) -> (requirement: Requirement)
        ensures
            requirement@ == text@,
    {
        Requirement { text: String::from_str(text) }
    }

    /// Whether this requirement admits `version`.
    pub fn admits(&self, version: &Version) -> (admitted: bool)
        ensures
            admitted == admits_spec(self@, *version),
    {
        admission(semver_matches(self.text.as_str(), version.major, version.minor, version.patch))
    }
}

/// Reads the answer of a match: only a definite yes admits.
pub fn admission(answer: Option<bool>) -> (admitted: bool)
    ensures
        admitted == (answer == Some(true)),
{
    match answer {
        Some(yes) => yes,
        None => false,
    }
}

/// The latest of the first `n` versions among those marked as admitted.
/// A position without a mark counts as not admitted.
pub open spec fn best_upto(versions: Seq<Version>, admitted: Seq<bool>, n: nat) -> Option<Version>
    decreases n,
{
    if n == 0 {
        None
    } else {
        let rest = best_upto(versions, admitted, (n - 1) as nat);
        let i = n - 1;
        if i < versions.len() && i < admitted.len() && admitted[i] {
            match rest {
                Some(best) => if best.precedes(versions[i]) {
                    Some(versions[i])
                } else {
                    Some(best)
                },
                None => Some(versions[i]),
            }
        } else {
            rest
        }
    }
}

/// The latest of the versions marked as admitted, if any is.
pub open spec fn best_of(versions: Seq<Version>, admitted: Seq<bool>) -> Option<Version> {
    best_upto(versions, admitted, versions.len())
}

/// Picks the latest of `versions` among those that `admitted` marks.
pub fn best_match(versions: &Vec<Version>, admitted: &Vec<bool>) -> (best: Option<Version>)
    ensures
        best == best_of(versions@, admitted@),
{
    let mut best: Option<Version> = None;
    let mut i: usize = 0;
    while i < versions.len()
        invariant
            i <= versions.len(),
            best == best_upto(versions@, admitted@, i as nat),
        decreases versions.len() - i,
    {
        if i < admitted.len() && admitted[i] {
            let candidate = versions[i];
            best = match best {
                Some(current) => if current.is_before(&candidate) {
                    Some(candidate)
                } else {
                    Some(current)
                },
                None => Some(candidate),
            };
        }
        i += 1;
    }
    best
}

/// Which of `versions` the requirement admits, position by position.
pub open spec fn admissions(versions: Seq<Version>, requirement: Seq<char>) -> Seq<bool> {
    Seq::new(versions.len(), |i: int| admits_spec(requirement, versions[i]))
}

/// The latest of `versions` that the requirement admits.
pub open spec fn resolve_local_spec(versions: Seq<Version>, requirement: Seq<char>) -> Option<Version> {
    best_of(versions, admissions(versions, requirement))
}

/// What is installed of one tool, and the user's default version of it.
#[derive(Debug)]
pub struct Collection {
    pub default: Option<Version>,
    pub versions: Vec<Version>,
}

impl Collection {
    /// The latest installed version that satisfies `requirement`.
    pub fn resolve_local(&self, requirement: &Requirement) -> (found: Option<Version>)
        ensures
            found == resolve_local_spec(self.versions@, requirement@),
    {
        let mut admitted: Vec<bool> = Vec::new();
        let mut i: usize = 0;
        while i < self.versions.len()
            invariant
                i <= self.versions.len(),
                admitted@.len() == i,
                forall|j: int| 0 <= j < i ==> admitted@[j] == admits_spec(requirement@, self.versions@[j]),
            decreases self.versions.len() - i,
        {
            admitted.push(requirement.admits(&self.versions[i]));
            i += 1;
        }
        assert(admitted@ =~= admissions(self.versions@, requirement@));
        best_match(&self.versions, &admitted)
    }
}

/// The result of `best_of` is one of the versions, is marked as admitted, and
/// no admitted version is later.
pub proof fn best_of_is_latest_admitted(versions: Seq<Version>, admitted: Seq<bool>)
    ensures
        match best_of(versions, admitted) {
            Some(best) => {
                &&& exists|i: int| 0 <= i < versions.len() && i < admitted.len() && admitted[i] && versions[i] == best
                &&& forall|j: int| 0 <= j < versions.len() && j < admitted.len() && admitted[j] ==> !best.precedes(#[trigger] versions[j])
            },
            None => forall|j: int| 0 <= j < versions.len() && j < admitted.len() ==> !#[trigger] admitted[j],
        },
{
    best_upto_is_latest_admitted(versions, admitted, versions.len());
}

/// The version that a requirement resolves to is installed and satisfies
/// the requirement, and no installed version that satisfies it is later.
/// Nothing is resolved exactly when no installed version satisfies it.
pub proof fn resolve_local_is_latest_satisfying(versions: Seq<Version>, requirement: Seq<char>)
    ensures
        match resolve_local_spec(versions, requirement) {
            Some(best) => {
                &&& versions.contains(best)
                &&& admits_spec(requirement, best)
                &&& forall|j: int|
                    0 <= j < versions.len() && admits_spec(requirement, #[trigger] versions[j]) ==> !best.precedes(
                        versions[j],
                    )
            },
            None => forall|j: int| 0 <= j < versions.len() ==> !admits_spec(requirement, #[trigger] versions[j]),
        },
{
    let admitted = admissions(versions, requirement);
    best_of_is_latest_admitted(versions, admitted);
    assert forall|j: int| 0 <= j < versions.len() implies admitted[j] == admits_spec(
        requirement,
        #[trigger] versions[j],
    ) by {}
    match best_of(versions, admitted) {
        Some(best) => {
            let i = choose|i: int| 0 <= i < versions.len() && i < admitted.len() && admitted[i] && versions[i] == best;
            assert(versions[i] == best && admitted[i]);
        },
        None => {
            assert forall|j: int| 0 <= j < versions.len() implies !admits_spec(requirement, #[trigger] versions[j]) by {
                assert(!admitted[j]);
            }
        },
    }
}

proof fn best_upto_is_latest_admitted(versions: Seq<Version>, admitted: Seq<bool>, n: nat)
    requires
        n <= versions.len(),
    ensures
        match best_upto(versions, admitted, n) {
            Some(best) => {
                &&& exists|i: int| 0 <= i < n && i < admitted.len() && admitted[i] && versions[i] == best
                &&& forall|j: int| 0 <= j < n && j < admitted.len() && admitted[j] ==> !best.precedes(#[trigger] versions[j])
            },
            None => forall|j: int| 0 <= j < n && j < admitted.len() ==> !#[trigger] admitted[j],
        },
    decreases n,
{
    if n > 0 {
        best_upto_is_latest_admitted(versions, admitted, (n - 1) as nat);
        let rest = best_upto(versions, admitted, (n - 1) as nat);
        let i = n - 1;
        if i < admitted.len() && admitted[i] {
            match rest {
                Some(prev) => {
                    let k = choose|k: int| 0 <= k < n - 1 && k < admitted.len() && admitted[k] && versions[k] == prev;
                    if prev.precedes(versions[i]) {
                        assert(admitted[i] && versions[i] == versions[i]);
                    } else {
                        assert(admitted[k] && versions[k] == prev);
                    }
                },
                None => {
                    assert(admitted[i] && versions[i] == versions[i]);
                },
            }
        } else {
            match rest {
                Some(prev) => {
                    let k = choose|k: int| 0 <= k < n - 1 && k < admitted.len() && admitted[k] && versions[k] == prev;
                    assert(admitted[k] && versions[k] == prev);
                },
                None => {},
            }
        }
    }
}

} // verus!
