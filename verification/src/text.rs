//! Small operations on text that the other modules share: joining path
//! components and looking a name up in a list of names.

use vstd::prelude::*;
use vstd::string::*;

verus! {

/// The path `base` extended by the component `part`: a component that
/// starts at the root replaces the base, and a separator is put between the
/// two unless the base is empty or already ends in one.
pub open spec fn join_spec(base: Seq<char>, part: Seq<char>) -> Seq<char> {
    if part.len() > 0 && part[0] == '/' {
        part
    } else if base.len() == 0 || base.last() == '/' {
        base + part
    } else {
        base + seq!['/'] + part
    }
}

/// Extends the path `base` by the component `part`.
pub fn join(base: &str, part: &str) -> (joined: String)
    ensures
        joined@ == join_spec(base@, part@),
{
    let part_len: usize = part.unicode_len();
    let base_len: usize = base.unicode_len();
    if part_len > 0 && part.get_char(0) == '/' {
        String::from_str(part)
    } else if base_len == 0 || base.get_char(base_len - 1) == '/' {
        String::from_str(base).concat(part)
    } else {
        proof {
            reveal_strlit("/");
            assert("/"@ =~= seq!['/']);
        }
        String::from_str(base).concat("/").concat(part)
    }
}

/// Whether two texts hold the same characters.
pub fn same_text(a: &str, b: &str) -> (same: bool)
    ensures
        same == (a@ == b@),
{
    let left = String::from_str(a);
    let right = String::from_str(b);
    left == right
}

/// Whether `name` is one of `names`.
pub open spec fn names_contain(names: Seq<String>, name: Seq<char>) -> bool {
    exists|i: int| 0 <= i < names.len() && (#[trigger] names[i])@ == name
}

/// Looks `name` up in `names`.
pub fn contains_name(names: &Vec<String>, name: &str) -> (found: bool)
    ensures
        found == names_contain(names@, name@),
{
    let mut i: usize = 0;
    while i < names.len()
        invariant
            i <= names.len(),
            forall|j: int| 0 <= j < i ==> (#[trigger] names@[j])@ != name@,
        decreases names.len() - i,
    {
        if same_text(names[i].as_str(), name) {
            return true;
        }
        i += 1;
    }
    false
}

/// The names as plain texts, in order.
pub open spec fn names_view(names: Seq<String>) -> Seq<Seq<char>> {
    names.map_values(|name: String| name@)
}

/// A list of the same names in the same order.
pub fn copy_names(names: &Vec<String>) -> (copy: Vec<String>)
    ensures
        names_view(copy@) == names_view(names@),
{
    let mut copy: Vec<String> = Vec::new();
    let mut i: usize = 0;
    while i < names.len()
        invariant
            i <= names.len(),
            copy@.len() == i,
            forall|j: int| 0 <= j < i ==> (#[trigger] copy@[j])@ == names@[j]@,
        decreases names.len() - i,
    {
        copy.push(names[i].clone());
        i += 1;
    }
    assert(names_view(copy@) =~= names_view(names@));
    copy
}

} // verus!
