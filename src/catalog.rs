//! The decisions that catalog handlers take from a request's query string.

use vstd::prelude::*;
use vstd::string::StrSliceExecFns;
use crate::text::matches_word;

verus! {

/// Whether `w` occurs in `s` at position `i`.
pub open spec fn occurs_at(s: Seq<char>, w: Seq<char>, i: int) -> bool {
    0 <= i && i + w.len() <= s.len() && s.subrange(i, i + w.len()) == w
}

/// Whether `w` occurs in `s`.
pub open spec fn occurs_in(s: Seq<char>, w: Seq<char>) -> bool {
    exists|i: int| occurs_at(s, w, i)
}

/// Whether `word` occurs in `s`.
pub fn contains_word(s: &str, word: &str) -> (r: bool)
    ensures
        r == occurs_in(s@, word@),
{
    let n = s.unicode_len();
    let m = word.unicode_len();
    if m > n {
        return false;
    }
    let mut i: usize = 0;
    loop
        invariant
            n == s@.len(),
            m == word@.len(),
            m <= n,
            i <= n - m,
            forall|j: int| 0 <= j < i ==> !occurs_at(s@, word@, j),
        decreases n - m - i,
    {
        if matches_word(s, i, i + m, word) {
            assert(occurs_at(s@, word@, i as int));
            return true;
        }
        if i == n - m {
            return false;
        }
        i = i + 1;
    }
}

/// Which lists a list query asks for.
#[derive(Debug, Clone, Copy, PartialEq, Eq, Structural)]
pub enum ListFilter {
    /// Every list.
    All,
    /// Lists selected by type.
    ByType,
    /// Lists selected by type and genre.
    ByTypeAndGenre,
}

/// The parameter name that selects lists by type.
pub open spec fn type_param() -> Seq<char> {
    seq!['t', 'y', 'p', 'e', '=']
}

/// The parameter name that selects lists by genre.
pub open spec fn genre_param() -> Seq<char> {
    seq!['g', 'e', 'n', 'r', 'e', '=']
}

/// The selector that asks for series.
pub open spec fn series_param() -> Seq<char> {
    seq!['t', 'y', 'p', 'e', '=', 's', 'e', 'r', 'i', 'e', 's']
}

/// The lists that `query` asks for: a genre counts only beside a type.
pub open spec fn list_filter_of(query: Seq<char>) -> ListFilter {
    if occurs_in(query, type_param()) {
        if occurs_in(query, genre_param()) {
            ListFilter::ByTypeAndGenre
        } else {
            ListFilter::ByType
        }
    } else {
        ListFilter::All
    }
}

/// Decides which lists a query string asks for.
pub fn list_filter(query: &str) -> (r: ListFilter)
    ensures
        r == list_filter_of(query@),
{
    proof {
        reveal_strlit("type=");
        reveal_strlit("genre=");
        assert("type="@ =~= type_param());
        assert("genre="@ =~= genre_param());
    }
    if contains_word(query, "type=") {
        if contains_word(query, "genre=") {
            ListFilter::ByTypeAndGenre
        } else {
            ListFilter::ByType
        }
    } else {
        ListFilter::All
    }
}

/// Whether a query string for a random title asks for a series.
pub fn wants_series(query: &str) -> (r: bool)
    ensures
        r == occurs_in(query@, series_param()),
{
    proof {
        reveal_strlit("type=series");
        assert("type=series"@ =~= series_param());
    }
    contains_word(query, "type=series")
}

} // verus!
