//! Resolving a window by its title in a listing of the open windows.
//!
//! A listing holds one line per window. The first token of a line identifies the window, and
//! the rest of the line holds, among other things, its title.

use crate::text::{
    chars_of, contains, first_token, first_token_bounds, has_substring, lines_of, next_line,
};
use vstd::prelude::*;
use vstd::slice::slice_subrange;
use vstd::string::*;

verus! {

/// Whether `line` names a window that `title` selects: the title is part of the line, and the
/// line has a token to identify the window by.
pub open spec fn line_matches(line: Seq<char>, title: Seq<char>) -> bool {
    has_substring(line, title) && first_token(line) is Some
}

/// The identifier of the first of `lines` that matches `title`.
pub open spec fn window_id_in(lines: Seq<Seq<char>>, title: Seq<char>) -> Option<Seq<char>>
    decreases lines.len(),
{
    if lines.len() == 0 {
        None
    } else if line_matches(lines[0], title) {
        first_token(lines[0])
    } else {
        window_id_in(lines.drop_first(), title)
    }
}

/// The identifier of the window that `title` selects in `listing`: the first token of the
/// first line that holds the title. Case matters, and the first match wins.
pub open spec fn window_id(listing: Seq<char>, title: Seq<char>) -> Option<Seq<char>> {
    window_id_in(lines_of(listing), title)
}

/// Whether no line of `listing` holds `title`.
pub open spec fn title_absent(listing: Seq<char>, title: Seq<char>) -> bool {
    forall|j: int| 0 <= j < lines_of(listing).len() ==> !has_substring(#[trigger] lines_of(listing)[j], title)
}

/// The first matching line decides: its first token is the identifier.
pub proof fn lemma_first_match_wins(lines: Seq<Seq<char>>, title: Seq<char>, k: int)
    requires
        0 <= k < lines.len(),
        line_matches(lines[k], title),
        forall|j: int| 0 <= j < k ==> !line_matches(lines[j], title),
    ensures
        window_id_in(lines, title) == first_token(lines[k]),
    decreases k,
{
    if k > 0 {
        let rest = lines.drop_first();
        assert(!line_matches(lines[0], title));
        assert forall|j: int| 0 <= j < k - 1 implies !line_matches(rest[j], title) by {
            assert(rest[j] == lines[j + 1]);
        }
        assert(rest[k - 1] == lines[k]);
        lemma_first_match_wins(rest, title, k - 1);
    }
}

/// Where no line holds the title, no window is found.
pub proof fn lemma_absent_title_not_found(lines: Seq<Seq<char>>, title: Seq<char>)
    requires
        forall|j: int| 0 <= j < lines.len() ==> !has_substring(lines[j], title),
    ensures
        window_id_in(lines, title) is None,
    decreases lines.len(),
{
    if lines.len() > 0 {
        let rest = lines.drop_first();
        assert(!has_substring(lines[0], title));
        assert forall|j: int| 0 <= j < rest.len() implies !has_substring(rest[j], title) by {
            assert(rest[j] == lines[j + 1]);
        }
        lemma_absent_title_not_found(rest, title);
    }
}

/// A window is found exactly if some line matches, and then a line that matches holds the
/// identifier as its first token.
pub proof fn lemma_found_iff_some_line_matches(lines: Seq<Seq<char>>, title: Seq<char>)
    ensures
        window_id_in(lines, title) is Some <==> exists|k: int|
            0 <= k < lines.len() && line_matches(lines[k], title),
    decreases lines.len(),
{
    if lines.len() > 0 {
        let rest = lines.drop_first();
        lemma_found_iff_some_line_matches(rest, title);
        if line_matches(lines[0], title) {
        } else if window_id_in(rest, title) is Some {
            let k = choose|k: int| 0 <= k < rest.len() && line_matches(rest[k], title);
            assert(rest[k] == lines[k + 1]);
            assert(0 <= k + 1 < lines.len() && line_matches(lines[k + 1], title));
        } else {
            assert forall|k: int| 0 <= k < lines.len() implies !line_matches(lines[k], title) by {
                if k > 0 {
                    assert(rest[k - 1] == lines[k]);
                }
            }
        }
    }
}

/// The bounds, within `listing`, of the identifier of the window that `title` selects.
pub fn locate_window(listing: &[char], title: &[char]) -> (r: Option<(usize, usize)>)
    ensures
        match r {
            Some((start, end)) => start < end <= listing.len() && window_id(listing@, title@)
                == Some(listing@.subrange(start as int, end as int)),
            None => window_id(listing@, title@) is None,
        },
{
    let mut from: usize = 0;
    assert(listing@.skip(0) =~= listing@);
    while from < listing.len()
        invariant
            from <= listing.len(),
            window_id(listing@, title@) == window_id(listing@.skip(from as int), title@),
        decreases listing.len() - from,
    {
        let (end, next) = next_line(listing, from);
        let line = slice_subrange(listing, from, end);
        let ghost lines = lines_of(listing@.skip(from as int));
        assert(lines[0] == line@);
        assert(lines.drop_first() =~= lines_of(listing@.skip(next as int)));
        if contains(line, title) {
            if let Some((start, stop)) = first_token_bounds(line) {
                assert(line@.subrange(start as int, stop as int) =~= listing@.subrange(
                    from + start,
                    from + stop,
                ));
                return Some((from + start, from + stop));
            }
        }
        from = next;
    }
    assert(listing@.skip(from as int).len() == 0);
    None
}

/// The identifier of the window that `title` selects in `listing`, if there is one.
pub fn find_window_id(listing: &str, title: &str) -> (r: Option<String>)
    ensures
        match r {
            Some(id) => window_id(listing@, title@) == Some(id@),
            None => window_id(listing@, title@) is None,
        },
{
    let text = chars_of(listing);
    let wanted = chars_of(title);
    match locate_window(text.as_slice(), wanted.as_slice()) {
        Some((start, end)) => Some(String::from_str(listing.substring_char(start, end))),
        None => None,
    }
}

} // verus!
