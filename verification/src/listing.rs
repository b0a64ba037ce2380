//! The listing of the shims on disk: one line per shim, and in the verbose
//! form what each shim does. A shim that cannot be resolved gets an error
//! line of its own and the listing goes on.

use vstd::prelude::*;
use vstd::string::*;
use crate::session::Session;
use crate::shim::{describe_spec, resolve_shim, resolve_shim_spec};

verus! {

/// One line of a listing.
#[derive(Debug)]
pub enum ListLine {
    /// A line of the listing proper.
    Info(String),
    /// The message of a failure, shown in place of the shim's line.
    Error(String),
}

pub enum ListLineView {
    Info(Seq<char>),
    Error(Seq<char>),
}

impl View for ListLine {
    type V = ListLineView;

    open spec fn view(&self) -> ListLineView {
        match self {
            ListLine::Info(text) => ListLineView::Info(text@),
            ListLine::Error(message) => ListLineView::Error(message@),
        }
    }
}

/// A listing: its lines, and whether every entry of the directory could be
/// shown.
#[derive(Debug)]
pub struct ListReport {
    pub lines: Vec<ListLine>,
    pub success: bool,
}

/// The views of the lines, in order.
pub open spec fn line_views(lines: Seq<ListLine>) -> Seq<ListLineView> {
    lines.map_values(|line: ListLine| line@)
}

/// The line of one directory entry. An entry whose name could not be read
/// has none. The plain form shows the name; the verbose form shows the name,
/// an arrow and what the shim does, or the failure.
pub open spec fn entry_line_spec(session: Session, entry: Option<String>, verbose: bool) -> Option<ListLineView> {
    match entry {
        None => None,
        Some(name) => if !verbose {
            Some(ListLineView::Info(name@))
        } else {
            match resolve_shim_spec(session, name@) {
                Ok(kind) => Some(ListLineView::Info(name@ + " -> "@ + describe_spec(kind))),
                Err(message) => Some(ListLineView::Error(message)),
            }
        },
    }
}

/// Whether a directory entry could be shown: its name was read and, in the
/// verbose form, the shim was resolved.
pub open spec fn entry_ok_spec(session: Session, entry: Option<String>, verbose: bool) -> bool {
    match entry {
        None => false,
        Some(name) => !verbose || resolve_shim_spec(session, name@) is Ok,
    }
}

/// The lines of the first `n` entries, in order.
pub open spec fn list_lines_spec(session: Session, entries: Seq<Option<String>>, verbose: bool, n: nat) -> Seq<ListLineView>
    decreases n,
{
    if n == 0 || n > entries.len() {
        Seq::empty()
    } else {
        let before = list_lines_spec(session, entries, verbose, (n - 1) as nat);
        match entry_line_spec(session, entries[n - 1], verbose) {
            Some(line) => before.push(line),
            None => before,
        }
    }
}

/// Shows one directory entry: its line, if it has one, and whether it could
/// be shown.
pub fn print_file_info(session: &Session, entry: &Option<String>, verbose: bool) -> (shown: (Option<ListLine>, bool))
    ensures
        match shown.0 {
            Some(line) => entry_line_spec(*session, *entry, verbose) == Some(line@),
            None => entry_line_spec(*session, *entry, verbose).is_none(),
        },
        shown.1 == entry_ok_spec(*session, *entry, verbose),
{
    match entry {
        None => (None, false),
        Some(shim_name) => {
            if verbose {
                match resolve_shim(session, shim_name.as_str()) {
                    Ok(shim_info) => {
                        let text = shim_name.clone().concat(" -> ").concat(shim_info.describe().as_str());
                        (Some(ListLine::Info(text)), true)
                    },
                    Err(failure) => (Some(ListLine::Error(failure.message)), false),
                }
            } else {
                (Some(ListLine::Info(shim_name.clone())), true)
            }
        },
    }
}

/// Lists the shims whose directory entries are given, in order. The listing
/// succeeds only if every entry could be shown.
pub fn list(session: &Session, entries: &Vec<Option<String>>, verbose: bool) -> (report: ListReport)
    ensures
        line_views(report.lines@) == list_lines_spec(*session, entries@, verbose, entries@.len()),
        report.success == (forall|i: int| 0 <= i < entries@.len() ==> entry_ok_spec(*session, #[trigger] entries@[i], verbose)),
{
    let mut lines: Vec<ListLine> = Vec::new();
    let mut success = true;
    let mut i: usize = 0;
    assert(line_views(lines@) =~= Seq::<ListLineView>::empty());
    while i < entries.len()
        invariant
            i <= entries.len(),
            line_views(lines@) == list_lines_spec(*session, entries@, verbose, i as nat),
            success == (forall|j: int| 0 <= j < i ==> entry_ok_spec(*session, #[trigger] entries@[j], verbose)),
        decreases entries.len() - i,
    {
        let ghost before = lines@;
        let (line, ok) = print_file_info(session, &entries[i], verbose);
        match line {
            Some(line) => {
                lines.push(line);
                assert(line_views(lines@) =~= line_views(before).push(line@));
            },
            None => {},
        }
        if !ok {
            success = false;
        }
        i += 1;
    }
    ListReport { lines, success }
}

/// How many of the lines are error lines.
pub open spec fn error_lines(lines: Seq<ListLineView>) -> nat
    decreases lines.len(),
{
    if lines.len() == 0 {
        0
    } else {
        let last: nat = if lines.last() is Error { 1 } else { 0 };
        error_lines(lines.drop_last()) + last
    }
}

/// How many of the lines are lines of the listing proper.
pub open spec fn info_lines(lines: Seq<ListLineView>) -> nat
    decreases lines.len(),
{
    if lines.len() == 0 {
        0
    } else {
        let last: nat = if lines.last() is Info { 1 } else { 0 };
        info_lines(lines.drop_last()) + last
    }
}

/// How many of the first `n` shims fail to resolve.
pub open spec fn failing_shims(session: Session, entries: Seq<Option<String>>, n: nat) -> nat
    decreases n,
{
    if n == 0 || n > entries.len() {
        0
    } else {
        let last: nat = if entries[n - 1] is Some && resolve_shim_spec(session, entries[n - 1]->Some_0@) is Err {
            1
        } else {
            0
        };
        failing_shims(session, entries, (n - 1) as nat) + last
    }
}

/// A verbose listing of shims whose names were all read has one line per
/// shim; as many of them are error lines as there are shims that fail to
/// resolve, the others are lines of the listing proper; and the listing
/// succeeds exactly when no shim fails.
pub proof fn verbose_listing_counts(session: Session, entries: Seq<Option<String>>)
    requires
        forall|i: int| 0 <= i < entries.len() ==> (#[trigger] entries[i]) is Some,
    ensures
        list_lines_spec(session, entries, true, entries.len()).len() == entries.len(),
        error_lines(list_lines_spec(session, entries, true, entries.len())) == failing_shims(
            session,
            entries,
            entries.len(),
        ),
        info_lines(list_lines_spec(session, entries, true, entries.len())) + failing_shims(
            session,
            entries,
            entries.len(),
        ) == entries.len(),
        (forall|i: int| 0 <= i < entries.len() ==> entry_ok_spec(session, #[trigger] entries[i], true)) <==> failing_shims(
            session,
            entries,
            entries.len(),
        ) == 0,
{
    verbose_listing_counts_upto(session, entries, entries.len());
}

proof fn verbose_listing_counts_upto(session: Session, entries: Seq<Option<String>>, n: nat)
    requires
        n <= entries.len(),
        forall|i: int| 0 <= i < entries.len() ==> (#[trigger] entries[i]) is Some,
    ensures
        list_lines_spec(session, entries, true, n).len() == n,
        error_lines(list_lines_spec(session, entries, true, n)) == failing_shims(session, entries, n),
        info_lines(list_lines_spec(session, entries, true, n)) + failing_shims(session, entries, n) == n,
        (forall|i: int| 0 <= i < n ==> entry_ok_spec(session, #[trigger] entries[i], true)) <==> failing_shims(
            session,
            entries,
            n,
        ) == 0,
    decreases n,
{
    if n > 0 {
        verbose_listing_counts_upto(session, entries, (n - 1) as nat);
        let before = list_lines_spec(session, entries, true, (n - 1) as nat);
        let line = entry_line_spec(session, entries[n - 1], true)->Some_0;
        assert(entries[n - 1] is Some);
        assert(before.push(line).drop_last() =~= before);
        assert(before.push(line).last() == line);
        if failing_shims(session, entries, n) == 0 {
            assert forall|i: int| 0 <= i < n implies entry_ok_spec(session, #[trigger] entries[i], true) by {
                if i < n - 1 {
                } else {
                    assert(entries[n - 1] is Some);
                }
            }
        } else {
            if failing_shims(session, entries, (n - 1) as nat) == 0 {
                assert(!entry_ok_spec(session, entries[n - 1], true));
            } else {
                let i = choose|i: int| 0 <= i < n - 1 && !entry_ok_spec(session, #[trigger] entries[i], true);
                assert(!entry_ok_spec(session, entries[i], true));
            }
        }
    }
}

} // verus!
