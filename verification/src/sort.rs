//! The feed-sort policy: a closed set of ordering strategies and the
//! case-insensitive parser that resolves a strategy name.

use vstd::prelude::*;

verus! {

/// Error returned when an input names no known feed-sort tag, or when a run
/// specification is rejected before it is built.
#[derive(Debug, PartialEq, Eq, Clone, Copy)]
pub struct ParseError;

/// The closed set of feed-ordering strategies the platform offers.  Every
/// tag is a valid value of the type; only `Hot` carries an implemented fetch
/// behaviour, and selecting any other tag at dispatch time is reported as a
/// feature gap rather than a runtime fault.
#[derive(Debug, PartialEq, Eq, Clone, Copy)]
pub enum RedditSort {
    Best,
    Hot,
    New,
    Top,
    Controversial,
    Rising,
}

/// ASCII lower-casing of one character; anything outside `'A'..='Z'` is
/// left unchanged.
pub open spec fn lower_char(c: char) -> char {
    if 'A' <= c && c <= 'Z' {
        ((c as u32) + 32) as char
    } else {
        c
    }
}

/// ASCII lower-casing of a character sequence.
pub open spec fn lower(s: Seq<char>) -> Seq<char> {
    s.map_values(|c: char| lower_char(c))
}

/// What parsing a sort name returns: the tag whose lower-cased name the
/// input matches, and a parse error for every other input.
pub open spec fn spec_parse_sort(s: Seq<char>) -> Result<RedditSort, ParseError> {
    if lower(s) == "best"@ {
        Ok(RedditSort::Best)
    } else if lower(s) == "hot"@ {
        Ok(RedditSort::Hot)
    } else if lower(s) == "new"@ {
        Ok(RedditSort::New)
    } else if lower(s) == "top"@ {
        Ok(RedditSort::Top)
    } else if lower(s) == "controversial"@ {
        Ok(RedditSort::Controversial)
    } else if lower(s) == "rising"@ {
        Ok(RedditSort::Rising)
    } else {
        Err(ParseError)
    }
}

/// Compares the ASCII lower-casing of `s` against an already-lower-cased
/// name `t`, character by character.
fn eq_lowered(s: &str, t: &str) -> (r: bool)
    requires
        lower(t@) == t@,
    ensures
        r == (lower(s@) == t@),
{
    let n = s.unicode_len();
    if n != t.unicode_len() {
        assert(lower(s@).len() == s@.len());
        return false;
    }
    let mut i: usize = 0;
    while i < n
        invariant
            i <= n,
            n == s@.len(),
            n == t@.len(),
            lower(t@) == t@,
            forall|j: int| 0 <= j < i ==> lower_char(s@[j]) == t@[j],
        decreases n - i,
    {
        let cs = s.get_char(i) as u32;
        let ct = t.get_char(i) as u32;
        let ls: u32 = if 65 <= cs && cs <= 90 {
            cs + 32
        } else {
            cs
        };
        if ls != ct {
            assert(lower_char(s@[i as int]) != t@[i as int]) by {
                assert(lower_char(s@[i as int]) as u32 == ls);
            }
            assert(lower(s@) != t@) by {
                assert(lower(s@)[i as int] == lower_char(s@[i as int]));
            }
            return false;
        }
        proof {
            assert(lower_char(s@[i as int]) as u32 == ls);
            assert(t@[i as int] == lower_char(t@[i as int]));
            assert(lower_char(s@[i as int]) == t@[i as int]);
        }
        i = i + 1;
    }
    proof {
        assert(lower(s@) =~= t@);
    }
    true
}

impl RedditSort {
    /// Resolves a strategy name: a case-insensitive exact match against the
    /// closed tag set, with a parse error for anything else.
    pub fn from_str(s: &str) -> (r: Result<RedditSort, ParseError>)
        ensures
            r == spec_parse_sort(s@),
    {
        proof {
            reveal_strlit("best");
            reveal_strlit("hot");
            reveal_strlit("new");
            reveal_strlit("top");
            reveal_strlit("controversial");
            reveal_strlit("rising");
            assert(lower("best"@) =~= "best"@);
            assert(lower("hot"@) =~= "hot"@);
            assert(lower("new"@) =~= "new"@);
            assert(lower("top"@) =~= "top"@);
            assert(lower("controversial"@) =~= "controversial"@);
            assert(lower("rising"@) =~= "rising"@);
        }
        if eq_lowered(s, "best") {
            Ok(RedditSort::Best)
        } else if eq_lowered(s, "hot") {
            Ok(RedditSort::Hot)
        } else if eq_lowered(s, "new") {
            Ok(RedditSort::New)
        } else if eq_lowered(s, "top") {
            Ok(RedditSort::Top)
        } else if eq_lowered(s, "controversial") {
            Ok(RedditSort::Controversial)
        } else if eq_lowered(s, "rising") {
            Ok(RedditSort::Rising)
        } else {
            Err(ParseError)
        }
    }
}

/// Parsing is case-insensitive: two names with the same ASCII lower-casing
/// parse to the same result.
pub proof fn lemma_parse_case_insensitive(s: Seq<char>, t: Seq<char>)
    requires
        lower(s) == lower(t),
    ensures
        spec_parse_sort(s) == spec_parse_sort(t),
{
}

} // verus!
