//! The filter of a listing search: a trimmed term, used as a SQL `LIKE`
//! pattern that matches it anywhere.
use vstd::prelude::*;
use vstd::string::*;
use crate::text::{is_white_space, lemma_trimmed_exact, trim, trimmed};

verus! {

/// The term searched for: the trimmed text, unless that is empty.
pub open spec fn search_term(search: Seq<char>) -> Option<Seq<char>> {
    if trimmed(search).len() == 0 {
        None
    } else {
        Some(trimmed(search))
    }
}

/// A `LIKE` pattern that matches `term` anywhere: `%term%`.
pub open spec fn like_anywhere(term: Seq<char>) -> Seq<char> {
    seq!['%'] + term + seq!['%']
}

/// The pattern that a listing is filtered with: none without a search or
/// with a blank one, otherwise `%{trimmed search}%`.
pub fn search_pattern(search: Option<String>) -> (pattern: Option<String>)
    ensures
        match search {
            None => pattern is None,
            Some(s) => match search_term(s@) {
                None => pattern is None,
                Some(t) => pattern is Some && pattern->0@ == like_anywhere(t),
            },
        },
        search matches Some(s) ==> (pattern is None <==> trimmed(s@).len() == 0),
        search matches Some(s) ==> (pattern is Some ==> pattern->0@ == seq!['%'] + trimmed(s@)
            + seq!['%']),
{
    match search {
        None => None,
        Some(s) => {
            let t = trim(s.as_str());
            if t.as_str().is_empty() {
                None
            } else {
                proof {
                    reveal_strlit("%");
                }
                let p = String::from_str("%").concat(t.as_str()).concat("%");
                Some(p)
            }
        },
    }
}

/// A search filters by a non-empty term with no white space at either
/// end; a search that is all white space does not filter at all.
pub proof fn lemma_search_term_trimmed(search: Seq<char>)
    ensures
        search_term(search) matches Some(t) ==> t.len() > 0 && trimmed(t) == t,
        search_term(search) is None <==> trimmed(search).len() == 0,
{
    crate::text::lemma_trimmed_idempotent(search);
}

/// The pattern of a search is `%`, then the search text from its first to
/// its last character that is not white space (`s[i..j]`, with only white
/// space outside it), then `%`; a search that is all white space gives no
/// pattern.
pub proof fn lemma_search_pattern_exact(s: Seq<char>) -> (r: (int, int))
    ensures
        search_term(s) is None <==> forall|k: int| 0 <= k < s.len() ==> is_white_space(#[trigger] s[k]),
        search_term(s) is Some ==> {
            &&& 0 <= r.0 < r.1 <= s.len()
            &&& like_anywhere(search_term(s)->0) == seq!['%'] + s.subrange(r.0, r.1) + seq!['%']
            &&& forall|k: int| 0 <= k < r.0 ==> is_white_space(#[trigger] s[k])
            &&& forall|k: int| r.1 <= k < s.len() ==> is_white_space(#[trigger] s[k])
            &&& !is_white_space(s[r.0]) && !is_white_space(s[r.1 - 1])
        },
{
    let (i, j) = lemma_trimmed_exact(s);
    if i == j {
        assert forall|k: int| 0 <= k < s.len() implies is_white_space(#[trigger] s[k]) by {
            if k >= i {
                assert(j <= k);
            }
        }
    } else {
        assert(!is_white_space(s[i]));
        assert(trimmed(s).len() > 0);
    }
    (i, j)
}

} // verus!
