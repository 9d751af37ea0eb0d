//! Scanning directories of movies or series: what each directory name, or the title ID kept
//! in it, leads to, and what the scan shows in the end.

use vstd::prelude::*;

use crate::cli::{
    create_keywords_set, KeywordSetErr, decimal_text, display_keywords, display_title_and_year, first_occurrences,
    joined, keyword_texts, parse_title_and_year, search_texts, title_and_year, words_of,
};
use crate::db::{
    has_key, has_key_and_year, has_keywords, has_keywords_and_year, index_of, last_with_id,
    selected, titles_at, Query,
};
use crate::keywords::{builds_leftmost_first, keyword_bytes, KeywordsError};
use crate::results::SearchRes;
use crate::search::{SearchString, SearchStringErr};
use crate::service::Service;
use crate::text::lowercase_of;
use crate::title::Title;
use crate::title_id::TitleId;

verus! {

/// What a directory scan has met so far: a directory it could look up, and one that matched.
#[derive(Debug, Clone, Copy, PartialEq, Eq, Structural)]
pub struct ScanState {
    pub at_least_one: bool,
    pub at_least_one_matched: bool,
}

/// How a directory scan ends.
#[derive(Debug, Clone, Copy, PartialEq, Eq, Structural)]
pub enum ScanEnd {
    /// No directory name could be looked up.
    NoValidNames,
    /// No directory matched a title.
    NoneMatched,
    /// The results are shown.
    Show,
}

impl ScanState {
    /// The state of a scan that has met nothing yet.
    pub fn new() -> (r: ScanState)
        ensures
            !r.at_least_one && !r.at_least_one_matched,
    {
        ScanState { at_least_one: false, at_least_one_matched: false }
    }

    /// How the scan ends: without valid names, without matches, or by showing the results.
    pub fn end(&self) -> (r: ScanEnd)
        ensures
            r == (if !self.at_least_one {
                ScanEnd::NoValidNames
            } else if !self.at_least_one_matched {
                ScanEnd::NoneMatched
            } else {
                ScanEnd::Show
            }),
    {
        if !self.at_least_one {
            ScanEnd::NoValidNames
        } else if !self.at_least_one_matched {
            ScanEnd::NoneMatched
        } else {
            ScanEnd::Show
        }
    }
}

/// The titles of references.
pub open spec fn derefs(ts: Seq<&Title>) -> Seq<Title> {
    ts.map_values(|t: &Title| *t)
}

/// Search results for one directory, with the search terms that found them.
pub struct LocalResults<'a> {
    pub results: SearchRes<'a>,
    pub terms: String,
}

/// What the titles `found` for one directory, searched as `terms`, do: with exactly one title
/// the directory matched and the title joins the results; with none or several, several count
/// as a match, and the titles are shown apart when `separate` (and `r` holds them), else they
/// join the results.
pub open spec fn place_found(
    found: Seq<Title>,
    terms: Seq<char>,
    separate: bool,
    before: ScanState,
    after: ScanState,
    old_results: Seq<Title>,
    new_results: Seq<Title>,
    r: Option<(Seq<Title>, Seq<char>)>,
) -> bool {
    &&& after.at_least_one == before.at_least_one
    &&& after.at_least_one_matched == (before.at_least_one_matched || found.len() >= 1)
    &&& if found.len() != 1 && separate {
        new_results == old_results && r == Some((found, terms))
    } else {
        new_results == old_results + found && r is None
    }
}

/// Places the titles found for one directory.
fn place<'a>(
    found: Vec<&'a Title>,
    terms: String,
    separate: bool,
    state: &mut ScanState,
    results: &mut SearchRes<'a>,
    sort_by_year: bool,
) -> (r: Option<LocalResults<'a>>)
    ensures
        place_found(
            derefs(found@),
            terms@,
            separate,
            *old(state),
            *final(state),
            derefs(old(results).spec_results()),
            derefs(final(results).spec_results()),
            match r {
                Some(l) => Some((derefs(l.results.spec_results()), l.terms@)),
                None => None,
            },
        ),
        final(results).spec_sort_by_year() == old(results).spec_sort_by_year(),
        final(results).spec_top() == old(results).spec_top(),
        r matches Some(l) ==> l.results.spec_sort_by_year() == sort_by_year && l.results.spec_top()
            is None,
{
    let n = found.len();
    if n == 1 {
        state.at_least_one_matched = true;
        results.extend(found);
        proof {
            assert(derefs(final(results).spec_results()) =~= derefs(old(results).spec_results())
                + derefs(found@));
        }
        return None;
    }
    if n > 1 {
        state.at_least_one_matched = true;
    }
    if separate {
        let mut local = SearchRes::new(sort_by_year, None);
        local.extend(found);
        proof {
            assert(derefs(local.spec_results()) =~= derefs(found@));
        }
        Some(LocalResults { results: local, terms })
    } else {
        results.extend(found);
        proof {
            assert(derefs(final(results).spec_results()) =~= derefs(old(results).spec_results())
                + derefs(found@));
        }
        None
    }
}

/// The position of the title of the query with the ID `info_id`, if one is given and known.
pub open spec fn known_by_id(service: Service, query: Query, info_id: Option<&TitleId>) -> Option<
    nat,
> {
    match info_id {
        Some(id) => last_with_id(service.spec_titles(query), id.spec_num()),
        None => None,
    }
}

/// The titles of the query found under the search string made of `title` and the year.
pub open spec fn found_by_title_and_year(
    service: Service,
    query: Query,
    title: Seq<char>,
    year: u16,
) -> Seq<Title> {
    titles_at(
        service.spec_titles(query),
        selected(index_of(service.spec_titles(query)), has_key_and_year(lowercase_of(title), year)),
    )
}

/// Looks up one movie directory: by the title ID kept in it, if any and known (the directory
/// then counts as looked up and matched), else by its name as `TITLE (YYYY)`; a name of another form is passed over. Titles found by the name
/// are placed by `place_found`, shown apart when `separate`.
pub fn scan_movie_entry<'a>(
    service: &'a Service,
    info_id: Option<&TitleId>,
    filename: &str,
    separate: bool,
    state: &mut ScanState,
    results: &mut SearchRes<'a>,
) -> (r: Result<Option<LocalResults<'a>>, SearchStringErr>)
    requires
        service.wf(),
    ensures
        final(results).spec_sort_by_year() == old(results).spec_sort_by_year(),
        final(results).spec_top() == old(results).spec_top(),
        match known_by_id(*service, Query::Movies, info_id) {
            Some(i) => {
                &&& r matches Ok(None)
                &&& derefs(final(results).spec_results()) == derefs(old(results).spec_results()).push(
                    service.spec_titles(Query::Movies)[i as int],
                )
                &&& final(state).at_least_one
                &&& final(state).at_least_one_matched
            },
            None => match title_and_year(filename@) {
                None => r matches Ok(None) && *final(state) == *old(state) && final(results).spec_results() == old(results).spec_results(),
                Some((t, y)) => r matches Ok(l) && place_found(
                    found_by_title_and_year(*service, Query::Movies, t, y),
                    t + " ("@ + decimal_text(y as nat) + ")"@,
                    separate,
                    ScanState { at_least_one: true, ..*old(state) },
                    *final(state),
                    derefs(old(results).spec_results()),
                    derefs(final(results).spec_results()),
                    match l {
                        Some(l) => Some((derefs(l.results.spec_results()), l.terms@)),
                        None => None,
                    },
                ),
            },
        },
{
    if let Some(id) = info_id {
        if let Some(title) = service.by_id(id, Query::Movies) {
            state.at_least_one = true;
            state.at_least_one_matched = true;
            results.push(title);
            proof {
                assert(derefs(final(results).spec_results()) =~= derefs(
                    old(results).spec_results(),
                ).push(*title));
            }
            return Ok(None);
        }
    }
    match parse_title_and_year(filename) {
        None => Ok(None),
        Some((title, year)) => {
            state.at_least_one = true;
            let search_string = match SearchString::try_from(title) {
                Ok(s) => s,
                Err(e) => {
                    return Err(e);
                },
            };
            let found = service.by_title_and_year(&search_string, year, Query::Movies);
            let terms = display_title_and_year(title, year);
            let sort_by_year = results.sort_by_year();
            Ok(place(found, terms, separate, state, results, sort_by_year))
        },
    }
}

/// The titles of the query found under the search string made of `name`.
pub open spec fn found_by_title(service: Service, query: Query, name: Seq<char>) -> Seq<Title> {
    titles_at(
        service.spec_titles(query),
        selected(index_of(service.spec_titles(query)), has_key(lowercase_of(name))),
    )
}

/// Looks up one series directory: by the title ID kept in it, if any and known (the directory
/// then counts as looked up and matched), else by its name as `TITLE (YYYY)`, or as a title alone when it is of another form. Titles found by the
/// name are placed by `place_found`, shown apart when `separate`.
pub fn scan_series_entry<'a>(
    service: &'a Service,
    info_id: Option<&TitleId>,
    filename: &str,
    separate: bool,
    state: &mut ScanState,
    results: &mut SearchRes<'a>,
) -> (r: Result<Option<LocalResults<'a>>, SearchStringErr>)
    requires
        service.wf(),
    ensures
        final(results).spec_sort_by_year() == old(results).spec_sort_by_year(),
        final(results).spec_top() == old(results).spec_top(),
        match known_by_id(*service, Query::Series, info_id) {
            Some(i) => {
                &&& r matches Ok(None)
                &&& derefs(final(results).spec_results()) == derefs(old(results).spec_results()).push(
                    service.spec_titles(Query::Series)[i as int],
                )
                &&& final(state).at_least_one
                &&& final(state).at_least_one_matched
            },
            None => match title_and_year(filename@) {
                Some((t, y)) => r matches Ok(l) && place_found(
                    found_by_title_and_year(*service, Query::Series, t, y),
                    t + " ("@ + decimal_text(y as nat) + ")"@,
                    separate,
                    ScanState { at_least_one: true, ..*old(state) },
                    *final(state),
                    derefs(old(results).spec_results()),
                    derefs(final(results).spec_results()),
                    match l {
                        Some(l) => Some((derefs(l.results.spec_results()), l.terms@)),
                        None => None,
                    },
                ),
                None => if filename@.len() == 0 {
                    r == Err::<Option<LocalResults>, SearchStringErr>(SearchStringErr::IsEmpty)
                        && final(state).at_least_one && final(results).spec_results() == old(results).spec_results()
                } else {
                    r matches Ok(l) && place_found(
                        found_by_title(*service, Query::Series, filename@),
                        filename@,
                        separate,
                        ScanState { at_least_one: true, ..*old(state) },
                        *final(state),
                        derefs(old(results).spec_results()),
                        derefs(final(results).spec_results()),
                        match l {
                            Some(l) => Some((derefs(l.results.spec_results()), l.terms@)),
                            None => None,
                        },
                    )
                },
            },
        },
{
    if let Some(id) = info_id {
        if let Some(title) = service.by_id(id, Query::Series) {
            state.at_least_one = true;
            state.at_least_one_matched = true;
            results.push(title);
            proof {
                assert(derefs(final(results).spec_results()) =~= derefs(
                    old(results).spec_results(),
                ).push(*title));
            }
            return Ok(None);
        }
    }
    state.at_least_one = true;
    let sort_by_year = results.sort_by_year();
    match parse_title_and_year(filename) {
        Some((title, year)) => {
            let search_string = match SearchString::try_from(title) {
                Ok(s) => s,
                Err(e) => {
                    return Err(e);
                },
            };
            let found = service.by_title_and_year(&search_string, year, Query::Series);
            let terms = display_title_and_year(title, year);
            Ok(place(found, terms, separate, state, results, sort_by_year))
        },
        None => {
            let search_string = match SearchString::try_from(filename) {
                Ok(s) => s,
                Err(e) => {
                    return Err(e);
                },
            };
            let found = service.by_title(&search_string, Query::Series);
            let terms = String::from_str(filename);
            Ok(place(found, terms, separate, state, results, sort_by_year))
        },
    }
}

/// Errors of a search.
#[derive(Debug, Clone, Copy, PartialEq, Eq, Structural)]
pub enum SearchError {
    /// The search text has no words.
    EmptyKeywords,
    /// The search text is empty.
    SearchString(SearchStringErr),
    /// No matcher can be built for the keywords.
    Keywords(KeywordsError),
}

/// The keywords of a search text, lowercase, as bytes.
pub open spec fn keyword_patterns(s: Seq<char>) -> Seq<Seq<u8>> {
    keyword_texts(s).map_values(|w: Seq<char>| vstd::utf8::encode_utf8(lowercase_of(w)))
}

/// The titles of the query whose lookup texts match all the keywords of the search text `s`,
/// and which have the year, if one is given.
pub open spec fn found_by_keywords(
    service: Service,
    query: Query,
    s: Seq<char>,
    year: Option<u16>,
) -> Seq<Title> {
    titles_at(
        service.spec_titles(query),
        selected(
            index_of(service.spec_titles(query)),
            match year {
                Some(y) => has_keywords_and_year(keyword_patterns(s), y),
                None => has_keywords(keyword_patterns(s)),
            },
        ),
    )
}

/// The text whose words a search looks for: the title of `TITLE (YYYY)`, else all of it.
pub open spec fn search_text(title: Seq<char>) -> Seq<char> {
    match title_and_year(title) {
        Some((t, _)) => t,
        None => title,
    }
}

/// The results of a search: the movies and the series found, and the search terms as shown.
pub struct Found<'a> {
    pub movies: SearchRes<'a>,
    pub series: SearchRes<'a>,
    pub terms: String,
}

/// What a search for `title` finds, as movies and series: when it reads as `TITLE (YYYY)`,
/// the titles of that year, else all; exactly the given title when `exact`, else the titles
/// that match all its keywords.
pub open spec fn search_found(service: Service, title: Seq<char>, exact: bool, f: Found) -> bool {
    let (m, s) = match title_and_year(title) {
        Some((t, y)) => if exact {
            (
                found_by_title_and_year(service, Query::Movies, t, y),
                found_by_title_and_year(service, Query::Series, t, y),
            )
        } else {
            (
                found_by_keywords(service, Query::Movies, t, Some(y)),
                found_by_keywords(service, Query::Series, t, Some(y)),
            )
        },
        None => if exact {
            (
                found_by_title(service, Query::Movies, title),
                found_by_title(service, Query::Series, title),
            )
        } else {
            (
                found_by_keywords(service, Query::Movies, title, None),
                found_by_keywords(service, Query::Series, title, None),
            )
        },
    };
    let terms = match title_and_year(title) {
        Some((t, y)) => t + " ("@ + decimal_text(y as nat) + ")"@,
        None => if exact {
            lowercase_of(title)
        } else {
            joined(keyword_texts(title).map_values(|w: Seq<char>| lowercase_of(w)), ", "@)
        },
    };
    &&& derefs(f.movies.spec_results()) == m
    &&& derefs(f.series.spec_results()) == s
    &&& f.terms@ == terms
}

/// Keywords whose texts are the lowercase forms of `texts` have those forms, as bytes, as
/// patterns, and show as those forms joined.
proof fn lemma_keywords_view(ks: Seq<SearchString>, texts: Seq<Seq<char>>)
    requires
        ks.len() == texts.len(),
        forall|i: int| 0 <= i < ks.len() ==> #[trigger] ks[i].view() == lowercase_of(texts[i]),
    ensures
        keyword_bytes(ks) == texts.map_values(
            |w: Seq<char>| vstd::utf8::encode_utf8(lowercase_of(w)),
        ),
        search_texts(ks) == texts.map_values(|w: Seq<char>| lowercase_of(w)),
{
    assert(keyword_bytes(ks) =~= texts.map_values(
        |w: Seq<char>| vstd::utf8::encode_utf8(lowercase_of(w)),
    ));
    assert(search_texts(ks) =~= texts.map_values(|w: Seq<char>| lowercase_of(w)));
}

/// Searches movies and series for `title`: when it reads as `TITLE (YYYY)`, for titles of
/// that year; exactly the given title when `exact`, else the titles that match all its
/// keywords. The results are ranked by year when `sort_by_year` and only the `top` ones are
/// shown when it is given.
pub fn search_title<'a>(
    service: &'a Service,
    title: &str,
    exact: bool,
    sort_by_year: bool,
    top: Option<usize>,
) -> (r: Result<Found<'a>, SearchError>)
    requires
        service.wf(),
    ensures
        r matches Ok(f) ==> search_found(*service, title@, exact, f)
            && f.movies.spec_sort_by_year() == sort_by_year && f.series.spec_sort_by_year()
            == sort_by_year && f.movies.spec_top() == top && f.series.spec_top() == top,
        r matches Err(e) ==> match e {
            SearchError::EmptyKeywords => !exact && first_occurrences(
                words_of(
                    match title_and_year(title@) {
                        Some((t, _)) => t,
                        None => title@,
                    },
                ),
            ).len() == 0,
            SearchError::SearchString(_) => exact && title@.len() == 0,
            SearchError::Keywords(_) => !exact && first_occurrences(
                words_of(search_text(title@)),
            ).len() > 0 && !builds_leftmost_first(keyword_patterns(search_text(title@))),
        },
        exact && title@.len() > 0 ==> r is Ok,
        !exact && first_occurrences(words_of(search_text(title@))).len() > 0
            && builds_leftmost_first(keyword_patterns(search_text(title@))) ==> r is Ok,
{
    let mut movies = SearchRes::new(sort_by_year, top);
    let mut series = SearchRes::new(sort_by_year, top);
    let terms;
    match parse_title_and_year(title) {
        Some((t, year)) => {
            if exact {
                let search_string = match SearchString::try_from(t) {
                    Ok(s) => s,
                    Err(e) => {
                        return Err(SearchError::SearchString(e));
                    },
                };
                movies.extend(service.by_title_and_year(&search_string, year, Query::Movies));
                series.extend(service.by_title_and_year(&search_string, year, Query::Series));
            } else {
                let keywords = match create_keywords_set(t) {
                    Ok(k) => k,
                    Err(e) => {
                        proof {
                            match e {
                                KeywordSetErr::EmptyKeywords => {},
                            }
                        }
                        return Err(SearchError::EmptyKeywords);
                    },
                };
                proof {
                    lemma_keywords_view(keywords@, keyword_texts(t@));
                }
                match service.by_keywords_and_year(keywords.as_slice(), year, Query::Movies) {
                    Ok(found) => movies.extend(found),
                    Err(e) => {
                        return Err(SearchError::Keywords(e));
                    },
                }
                match service.by_keywords_and_year(keywords.as_slice(), year, Query::Series) {
                    Ok(found) => series.extend(found),
                    Err(e) => {
                        return Err(SearchError::Keywords(e));
                    },
                }
            }
            terms = display_title_and_year(t, year);
        },
        None => {
            if exact {
                let search_string = match SearchString::try_from(title) {
                    Ok(s) => s,
                    Err(e) => {
                        return Err(SearchError::SearchString(e));
                    },
                };
                movies.extend(service.by_title(&search_string, Query::Movies));
                series.extend(service.by_title(&search_string, Query::Series));
                terms = search_string.into_string();
            } else {
                let keywords = match create_keywords_set(title) {
                    Ok(k) => k,
                    Err(e) => {
                        proof {
                            match e {
                                KeywordSetErr::EmptyKeywords => {},
                            }
                        }
                        return Err(SearchError::EmptyKeywords);
                    },
                };
                proof {
                    lemma_keywords_view(keywords@, keyword_texts(title@));
                }
                match service.by_keywords(keywords.as_slice(), Query::Movies) {
                    Ok(found) => movies.extend(found),
                    Err(e) => {
                        return Err(SearchError::Keywords(e));
                    },
                }
                match service.by_keywords(keywords.as_slice(), Query::Series) {
                    Ok(found) => series.extend(found),
                    Err(e) => {
                        return Err(SearchError::Keywords(e));
                    },
                }
                terms = display_keywords(keywords.as_slice());
            }
        },
    }
    proof {
        assert(derefs(movies.spec_results()) =~= derefs(Seq::<&Title>::empty()) + derefs(
            movies.spec_results(),
        ));
    }
    Ok(Found { movies, series, terms })
}

/// Whether a title with the number of `id` is known, among the movies or among the series.
pub fn is_known_id(service: &Service, id: &TitleId) -> (r: bool)
    requires
        service.wf(),
    ensures
        r == (last_with_id(service.spec_titles(Query::Movies), id.spec_num()) is Some
            || last_with_id(service.spec_titles(Query::Series), id.spec_num()) is Some),
{
    service.by_id(id, Query::Movies).is_some() || service.by_id(id, Query::Series).is_some()
}

} // verus!
