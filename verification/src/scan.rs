//! The decisions of a scan: which entries it passes over, and which line
//! it shows for each of the others.
//!
//! A walk hands over the entries of a tree one by one, each directory
//! before what lies in it, and says how deep below the root each one lies.
//! The scanner keeps track of the subtree it is passing over, so that
//! nothing below a blacklisted entry is shown whether or not the walk
//! itself leaves such subtrees out.

use crate::entry::{compared_name, entry_class, Entry};
use crate::platform::{blacklisted, Platform};
use crate::report::{line_of, report_line, suppressed};
use vstd::prelude::*;

verus! {

/// One entry as a walk hands it over.
#[derive(Clone, Debug)]
pub struct Visit {
    pub entry: Entry,
    /// How many directories lie between the root of the walk and the entry,
    /// the root itself included; the root has depth 0.
    pub depth: usize,
    /// The text of the file, empty where it was not read.
    pub content: String,
}

/// The state of a scan between two entries.
#[derive(Clone, Debug)]
pub struct Scanner {
    pub platform: Platform,
    /// The depth of the blacklisted entry whose subtree is being passed
    /// over, if there is one.
    pub pruned_at: Option<usize>,
}

/// The line shown for an entry that the scan visits, if it shows one.
pub open spec fn line_for(entry: Entry, content: Seq<char>) -> Option<Seq<char>> {
    if suppressed(entry_class(entry, content)) {
        None
    } else {
        Some(line_of(entry.path@, entry_class(entry, content)))
    }
}

/// Whether an entry at depth `depth` lies in the subtree that is being
/// passed over.
pub open spec fn inside(pruned_at: Option<usize>, depth: usize) -> bool {
    match pruned_at {
        Some(d) => depth > d,
        None => false,
    }
}

/// The subtree that is being passed over after an entry has been handed
/// over.
pub open spec fn next_pruned(
    platform: Platform,
    pruned_at: Option<usize>,
    entry: Entry,
    depth: usize,
) -> Option<usize> {
    if inside(pruned_at, depth) {
        pruned_at
    } else if blacklisted(compared_name(entry), platform) {
        Some(depth)
    } else {
        None
    }
}

/// The line shown for an entry that a walk hands over, if one is shown.
pub open spec fn shown(
    platform: Platform,
    pruned_at: Option<usize>,
    entry: Entry,
    depth: usize,
    content: Seq<char>,
) -> Option<Seq<char>> {
    if inside(pruned_at, depth) || blacklisted(compared_name(entry), platform) {
        None
    } else {
        line_for(entry, content)
    }
}

/// The subtree that is being passed over after the first `n` entries of a
/// walk.
pub open spec fn pruned_after(platform: Platform, walk: Seq<Visit>, n: int) -> Option<usize>
    decreases n,
{
    if n <= 0 {
        None
    } else {
        next_pruned(
            platform,
            pruned_after(platform, walk, n - 1),
            walk[n - 1].entry,
            walk[n - 1].depth,
        )
    }
}

/// The line shown for entry `n` of a walk, if one is shown.
pub open spec fn shown_at(platform: Platform, walk: Seq<Visit>, n: int) -> Option<Seq<char>> {
    shown(
        platform,
        pruned_after(platform, walk, n),
        walk[n].entry,
        walk[n].depth,
        walk[n].content@,
    )
}

/// The lines shown for the first `n` entries of a walk, in the walk's
/// order.
pub open spec fn report_of(platform: Platform, walk: Seq<Visit>, n: int) -> Seq<Seq<char>>
    decreases n,
{
    if n <= 0 {
        Seq::empty()
    } else {
        match shown_at(platform, walk, n - 1) {
            Some(line) => report_of(platform, walk, n - 1).push(line),
            None => report_of(platform, walk, n - 1),
        }
    }
}

/// The lines of a report as characters.
pub open spec fn texts(lines: Seq<String>) -> Seq<Seq<char>> {
    lines.map_values(|line: String| line@)
}

/// The line for an entry that the scan visits, or `None` where the report
/// leaves it out. `content` is the file's text, empty where it could not be
/// read or `needs_content` did not ask for it.
pub fn scan_entry(entry: &Entry, content: &str) -> (line: Option<String>)
    ensures
        line is Some <==> line_for(*entry, content@) is Some,
        line matches Some(text) ==> line_for(*entry, content@) == Some(text@),
{
    let class = entry.classify(content);
    report_line(entry.path.as_str(), &class)
}

impl Scanner {
    /// A scanner at the start of a walk.
    pub fn new(platform: Platform) -> (scanner: Scanner)
        ensures
            scanner.platform == platform,
            scanner.pruned_at is None,
    {
        Scanner { platform, pruned_at: None }
    }

    /// Takes the next entry of the walk and gives the line to show for it,
    /// if any: none for a blacklisted entry and for all that follows below
    /// it, else what `scan_entry` gives.
    pub fn visit(&mut self, entry: &Entry, depth: usize, content: &str) -> (line: Option<String>)
        ensures
            final(self).platform == old(self).platform,
            final(self).pruned_at == next_pruned(
                old(self).platform,
                old(self).pruned_at,
                *entry,
                depth,
            ),
            line is Some <==> shown(
                old(self).platform,
                old(self).pruned_at,
                *entry,
                depth,
                content@,
            ) is Some,
            line matches Some(text) ==> shown(
                old(self).platform,
                old(self).pruned_at,
                *entry,
                depth,
                content@,
            ) == Some(text@),
    {
        match self.pruned_at {
            Some(d) => {
                if depth > d {
                    return None;
                }
            },
            None => {},
        }
        if entry.is_blacklisted(&self.platform) {
            self.pruned_at = Some(depth);
            None
        } else {
            self.pruned_at = None;
            scan_entry(entry, content)
        }
    }
}

/// The report of a whole walk: the lines shown for its entries, one after
/// the other, in the walk's order.
pub fn scan_walk(platform: Platform, walk: &Vec<Visit>) -> (lines: Vec<String>)
    ensures
        texts(lines@) == report_of(platform, walk@, walk@.len() as int),
{
    let ghost given = platform;
    let mut scanner = Scanner::new(platform);
    let mut lines: Vec<String> = Vec::new();
    let mut i: usize = 0;
    proof {
        assert(texts(lines@) =~= report_of(given, walk@, 0));
    }
    while i < walk.len()
        invariant
            i <= walk@.len(),
            scanner.platform == given,
            scanner.pruned_at == pruned_after(given, walk@, i as int),
            texts(lines@) == report_of(given, walk@, i as int),
        decreases walk@.len() - i,
    {
        let visit = &walk[i];
        let ghost before = lines@;
        match scanner.visit(&visit.entry, visit.depth, visit.content.as_str()) {
            Some(line) => {
                proof {
                    assert(texts(before.push(line)) =~= texts(before).push(line@));
                }
                lines.push(line);
            },
            None => {},
        }
        i = i + 1;
    }
    lines
}

/// Once a walk has handed over a blacklisted entry, the scan passes over a
/// subtree whose root lies no deeper than that entry, for as long as the
/// entries that follow lie deeper than it.
pub proof fn stays_pruned(platform: Platform, walk: Seq<Visit>, i: int, j: int)
    requires
        0 <= i < j <= walk.len(),
        blacklisted(compared_name(walk[i].entry), platform),
        forall|k: int| i < k < j ==> (#[trigger] walk[k]).depth > walk[i].depth,
    ensures
        pruned_after(platform, walk, j) matches Some(d) && d <= walk[i].depth,
    decreases j - i,
{
    if j > i + 1 {
        stays_pruned(platform, walk, i, j - 1);
        assert(walk[j - 1].depth > walk[i].depth);
    }
}

/// Nothing is shown for an entry below a blacklisted one: where entry `i`
/// of a walk is blacklisted and all entries after it up to entry `j` lie
/// deeper than it, no line is shown for entry `j`, whatever it is.
pub proof fn nothing_shown_below_blacklisted(platform: Platform, walk: Seq<Visit>, i: int, j: int)
    requires
        0 <= i < j < walk.len(),
        blacklisted(compared_name(walk[i].entry), platform),
        forall|k: int| i < k <= j ==> (#[trigger] walk[k]).depth > walk[i].depth,
    ensures
        shown_at(platform, walk, j) is None,
{
    stays_pruned(platform, walk, i, j);
}

/// A report holds nothing from a blacklisted entry and what lies below it:
/// where entry `i` of a walk is blacklisted and all entries after it up to
/// entry `j` lie deeper than it, the report after entry `j` is the report
/// before entry `i`.
pub proof fn report_skips_blacklisted_subtree(
    platform: Platform,
    walk: Seq<Visit>,
    i: int,
    j: int,
)
    requires
        0 <= i <= j < walk.len(),
        blacklisted(compared_name(walk[i].entry), platform),
        forall|k: int| i < k <= j ==> (#[trigger] walk[k]).depth > walk[i].depth,
    ensures
        report_of(platform, walk, j + 1) == report_of(platform, walk, i),
    decreases j - i,
{
    if j > i {
        report_skips_blacklisted_subtree(platform, walk, i, j - 1);
        nothing_shown_below_blacklisted(platform, walk, i, j);
    }
}

/// Nothing is shown for a blacklisted entry itself.
pub proof fn nothing_shown_for_blacklisted(platform: Platform, walk: Seq<Visit>, i: int)
    requires
        0 <= i < walk.len(),
        blacklisted(compared_name(walk[i].entry), platform),
    ensures
        shown_at(platform, walk, i) is None,
{
}

} // verus!
