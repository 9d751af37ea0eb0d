//! Matching texts against a set of keywords with an Aho-Corasick automaton.

use vstd::prelude::*;

use aho_corasick::{AhoCorasick, AhoCorasickBuilder, BuildError, MatchKind};

use crate::search::SearchString;

verus! {

/// The automaton of the `aho-corasick` crate.
#[verifier::external_type_specification]
#[verifier::external_body]
pub struct ExAhoCorasick(AhoCorasick);

/// The error of the `aho-corasick` crate when an automaton cannot be built.
#[verifier::external_type_specification]
#[verifier::external_body]
pub struct ExBuildError(BuildError);

/// The patterns that an automaton was built from, as bytes, in the order given.
pub uninterp spec fn automaton_patterns(ac: AhoCorasick) -> Seq<Seq<u8>>;

/// Whether `AhoCorasickBuilder::build` builds a leftmost-first automaton for `patterns`; it
/// fails only where the automaton would pass its size limits.
pub uninterp spec fn builds_leftmost_first(patterns: Seq<Seq<u8>>) -> bool;

/// The matches that a leftmost-first search for `patterns` finds in `haystack`, one after
/// another, as `AhoCorasick::find_iter` reports them: pattern number, start and end.
pub uninterp spec fn leftmost_first_matches(patterns: Seq<Seq<u8>>, haystack: Seq<u8>) -> Seq<
    (usize, usize, usize),
>;

/// The pattern numbers of matches.
pub open spec fn match_patterns(ms: Seq<(usize, usize, usize)>) -> Seq<usize> {
    ms.map_values(|m: (usize, usize, usize)| m.0)
}

/// Whether `needle` occurs in `haystack`.
pub open spec fn occurs_in(needle: Seq<u8>, haystack: Seq<u8>) -> bool {
    exists|i: int, j: int| 0 <= i <= j <= haystack.len() && #[trigger] haystack.subrange(i, j) == needle
}

/// The keywords of a search, as bytes.
pub open spec fn keyword_bytes(keywords: Seq<SearchString>) -> Seq<Seq<u8>> {
    keywords.map_values(|k: SearchString| vstd::utf8::encode_utf8(k.view()))
}

/// Builds a leftmost-first automaton for the keywords with `AhoCorasickBuilder::build`, whose
/// success depends on the keywords' bytes alone. When it succeeds, the automaton holds the
/// keywords' bytes in the order given.
#[verifier::external_body]
fn build_leftmost_first(keywords: &[SearchString]) -> (r: Result<AhoCorasick, BuildError>)
    ensures
        r is Ok <==> builds_leftmost_first(keyword_bytes(keywords@)),
        r matches Ok(ac) ==> automaton_patterns(ac) == keyword_bytes(keywords@),
{
    AhoCorasickBuilder::new().match_kind(MatchKind::LeftmostFirst).build(
        keywords.iter().map(|k| k.as_bytes()),
    )
}

/// The number of patterns of an automaton, with `AhoCorasick::patterns_len`.
#[verifier::external_body]
fn patterns_len(ac: &AhoCorasick) -> (r: usize)
    ensures
        r == automaton_patterns(*ac).len(),
{
    ac.patterns_len()
}

/// Matches texts against all of a set of keywords.
pub struct KeywordMatcher {
    automaton: AhoCorasick,
}

/// Errors when making a keyword matcher.
#[derive(Debug, Clone, Copy, PartialEq, Eq, Structural)]
pub enum KeywordsError {
    /// The automaton for the keywords could not be built.
    Build,
}

/// Whether the pattern numbers `ids` name every one of `n` patterns.
pub open spec fn names_all(ids: Seq<usize>, n: nat) -> bool {
    forall|p: usize| p < n ==> #[trigger] ids.contains(p)
}

/// Whether a leftmost-first search of `text` for `patterns` finds each pattern at least once.
pub open spec fn matches_keywords(patterns: Seq<Seq<u8>>, text: Seq<u8>) -> bool {
    names_all(match_patterns(leftmost_first_matches(patterns, text)), patterns.len())
}

impl KeywordMatcher {
    /// The keywords, as bytes.
    pub closed spec fn spec_patterns(&self) -> Seq<Seq<u8>> {
        automaton_patterns(self.automaton)
    }

    /// Whether the matcher matches `text`: a leftmost-first search of `text` finds each
    /// keyword at least once.
    pub open spec fn spec_matches(&self, text: Seq<u8>) -> bool {
        matches_keywords(self.spec_patterns(), text)
    }

    /// Builds a matcher for the keywords, which keeps their order; it fails exactly when no
    /// automaton can be built for the keywords' bytes.
    pub fn new(keywords: &[SearchString]) -> (r: Result<KeywordMatcher, KeywordsError>)
        ensures
            r is Ok <==> builds_leftmost_first(keyword_bytes(keywords@)),
            r matches Ok(m) ==> m.spec_patterns() == keyword_bytes(keywords@),
    {
        match build_leftmost_first(keywords) {
            Ok(automaton) => Ok(KeywordMatcher { automaton }),
            Err(_) => Err(KeywordsError::Build),
        }
    }

    /// Returns whether a leftmost-first search of `text` finds each keyword at least once; a
    /// text that matches holds each keyword.
    pub fn matches(&self, text: &[u8]) -> (r: bool)
        ensures
            r == self.spec_matches(text@),
            r ==> forall|p: usize|
                p < self.spec_patterns().len() ==> occurs_in(
                    #[trigger] self.spec_patterns()[p as int],
                    text@,
                ),
    {
        let found = find_matches(self, text);
        let ghost all = leftmost_first_matches(self.spec_patterns(), text@);
        let mut ids: Vec<usize> = Vec::new();
        let mut k: usize = 0;
        while k < found.len()
            invariant
                found@ == all,
                k <= found@.len(),
                ids@ == match_patterns(all).take(k as int),
            decreases found@.len() - k,
        {
            ids.push(found[k].0);
            proof {
                assert(ids@ =~= match_patterns(all).take(k + 1));
            }
            k += 1;
        }
        proof {
            assert(ids@ =~= match_patterns(all));
            assert forall|q: int| 0 <= q < ids@.len() implies ids@[q] < self.spec_patterns().len() by {
                assert(all[q].0 < self.spec_patterns().len());
            }
        }
        let r = self.all_named(&ids, text);
        proof {
            if r {
                assert forall|p: usize| p < self.spec_patterns().len() implies occurs_in(
                    #[trigger] self.spec_patterns()[p as int],
                    text@,
                ) by {
                    assert(ids@.contains(p));
                    let q = choose|q: int| 0 <= q < ids@.len() && ids@[q] == p;
                    let m = found@[q];
                    assert(ids@[q] == m.0);
                    assert(text@.subrange(m.1 as int, m.2 as int) == self.spec_patterns()[p as int]);
                }
            }
        }
        r
    }

    /// Returns whether the pattern numbers `ids`, each naming a pattern, name every pattern.
    fn all_named(&self, ids: &Vec<usize>, text: &[u8]) -> (r: bool)
        requires
            ids@ == match_patterns(leftmost_first_matches(self.spec_patterns(), text@)),
            forall|k: int| 0 <= k < ids@.len() ==> ids@[k] < self.spec_patterns().len(),
        ensures
            r == self.spec_matches(text@),
    {
        let n = patterns_len(&self.automaton);
        let mut seen: Vec<bool> = Vec::new();
        let mut i: usize = 0;
        while i < n
            invariant
                i <= n,
                seen@.len() == i,
                forall|p: int| 0 <= p < i ==> !seen@[p],
            decreases n - i,
        {
            seen.push(false);
            i += 1;
        }
        let mut j: usize = 0;
        while j < ids.len()
            invariant
                j <= ids@.len(),
                seen@.len() == n,
                n == self.spec_patterns().len(),
                ids@ == match_patterns(leftmost_first_matches(self.spec_patterns(), text@)),
                forall|k: int| 0 <= k < ids@.len() ==> ids@[k] < n,
                forall|p: int|
                    0 <= p < n ==> (seen@[p] <==> exists|k: int| 0 <= k < j && ids@[k] == p),
            decreases ids@.len() - j,
        {
            let id = ids[j];
            seen.set(id, true);
            proof {
                assert forall|p: int| 0 <= p < n implies (seen@[p] <==> exists|k: int|
                    0 <= k < j + 1 && ids@[k] == p) by {
                    if p == id {
                        assert(ids@[j as int] == p);
                    } else if seen@[p] {
                        let k = choose|k: int| 0 <= k < j && ids@[k] == p;
                        assert(0 <= k < j + 1 && ids@[k] == p);
                    }
                }
            }
            j += 1;
        }
        let mut p: usize = 0;
        while p < n
            invariant
                p <= n,
                seen@.len() == n,
                n == self.spec_patterns().len(),
                ids@ == match_patterns(leftmost_first_matches(self.spec_patterns(), text@)),
                forall|q: int|
                    0 <= q < n ==> (seen@[q] <==> exists|k: int| 0 <= k < ids@.len() && ids@[k] == q),
                forall|q: usize| q < p ==> #[trigger] ids@.contains(q),
            decreases n - p,
        {
            if !seen[p] {
                proof {
                    if ids@.contains(p) {
                        let k = choose|k: int| 0 <= k < ids@.len() && ids@[k] == p;
                        assert(seen@[p as int]);
                    }
                }
                return false;
            }
            proof {
                let k = choose|k: int| 0 <= k < ids@.len() && ids@[k] == p;
                assert(ids@[k] == p);
            }
            p += 1;
        }
        true
    }
}

/// The matches that the matcher's automaton finds in `haystack` with
/// `AhoCorasick::find_iter`, one after another: pattern number, start and end. The automaton
/// was built with leftmost-first semantics by `KeywordMatcher::new`; each match names one of
/// its patterns and spans an occurrence of that pattern in `haystack`.
#[verifier::external_body]
fn find_matches(matcher: &KeywordMatcher, haystack: &[u8]) -> (r: Vec<(usize, usize, usize)>)
    ensures
        r@ == leftmost_first_matches(matcher.spec_patterns(), haystack@),
        forall|k: int|
            #![trigger r@[k]]
            0 <= k < r@.len() ==> {
                &&& r@[k].0 < matcher.spec_patterns().len()
                &&& r@[k].1 <= r@[k].2 <= haystack@.len()
                &&& haystack@.subrange(r@[k].1 as int, r@[k].2 as int) == matcher.spec_patterns()[r@[k].0 as int]
            },
{
    matcher.automaton.find_iter(haystack).map(|m| (m.pattern().as_usize(), m.start(), m.end())).collect()
}

} // verus!
