//! The listing of HTML files that stands in for a missing file.

use vstd::prelude::*;

verus! {

/// No listing holds more entries than this.
pub const LISTING_LIMIT: usize = 100;

/// The pattern that enumerates every HTML file beneath `directory`, at any
/// depth.
pub open spec fn pattern_of(directory: Seq<char>) -> Seq<char> {
    directory + "/**/*.html"@
}

/// The matches that could be shown as a path string, in the order in which
/// they were enumerated. A `None` stands for a match that failed or could
/// not be shown.
pub open spec fn convertible(matches: Seq<Option<Seq<char>>>) -> Seq<Seq<char>> {
    matches.filter_map(|found: Option<Seq<char>>| found)
}

/// The entries of the listing: the convertible matches, cut off after the
/// first [`LISTING_LIMIT`].
pub open spec fn listed(matches: Seq<Option<Seq<char>>>) -> Seq<Seq<char>> {
    let all = convertible(matches);
    if all.len() <= LISTING_LIMIT {
        all
    } else {
        all.take(LISTING_LIMIT as int)
    }
}

/// The convertible matches among the first `count` are the first ones
/// among all.
proof fn lemma_convertible_prefix(matches: Seq<Option<Seq<char>>>, count: int)
    requires
        0 <= count <= matches.len(),
    ensures
        convertible(matches.take(count)).is_prefix_of(convertible(matches)),
    decreases matches.len() - count,
{
    if count == matches.len() {
        assert(matches.take(count) =~= matches);
    } else {
        matches.lemma_filter_map_take_succ(|found: Option<Seq<char>>| found, count);
        lemma_convertible_prefix(matches, count + 1);
    }
}

/// A listing never holds more than [`LISTING_LIMIT`] entries: it is the
/// convertible matches themselves while they are no more than that, and
/// exactly the first [`LISTING_LIMIT`] of them once they are more.
pub proof fn listing_is_capped(matches: Seq<Option<Seq<char>>>)
    ensures
        listed(matches).is_prefix_of(convertible(matches)),
        convertible(matches).len() <= LISTING_LIMIT ==> listed(matches) == convertible(matches),
        convertible(matches).len() > LISTING_LIMIT ==> listed(matches).len() == LISTING_LIMIT,
{
}

/// The pattern that enumerates every HTML file beneath `directory`.
pub fn listing_pattern(directory: &str) -> (pattern: String)
    ensures
        pattern@ == pattern_of(directory@),
{
    String::from_str(directory).concat("/**/*.html")
}

/// Picks the listing's entries from what the enumeration gave: matches
/// that could not be converted are skipped, and at most [`LISTING_LIMIT`]
/// entries are kept, in enumeration order.
pub fn listing_entries(matches: &Vec<Option<String>>) -> (entries: Vec<String>)
    ensures
        entries.deep_view() == listed(matches.deep_view()),
{
    let ghost all = matches.deep_view();
    let mut entries: Vec<String> = Vec::new();
    let mut seen: usize = 0;
    assert(all.take(0) =~= Seq::empty());
    while seen < matches.len() && entries.len() < LISTING_LIMIT
        invariant
            seen <= matches.len(),
            all == matches.deep_view(),
            entries.len() <= LISTING_LIMIT,
            entries.deep_view() == convertible(all.take(seen as int)),
        decreases matches.len() - seen,
    {
        proof {
            all.lemma_filter_map_take_succ(|found: Option<Seq<char>>| found, seen as int);
        }
        let ghost before = entries.deep_view();
        match &matches[seen] {
            Some(path) => {
                entries.push(path.clone());
                assert(entries.deep_view() =~= before + seq![path@]);
            },
            None => {
                assert(entries.deep_view() =~= before + Seq::empty());
            },
        }
        seen = seen + 1;
    }
    proof {
        lemma_convertible_prefix(all, seen as int);
        if seen == matches.len() {
            assert(all.take(seen as int) =~= all);
        }
        assert(entries.deep_view() =~= listed(all));
    }
    entries
}

} // verus!
