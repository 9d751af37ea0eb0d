//! The database of titles: titles stored in order, found by ID, by title and year, or by
//! keywords.

use vstd::prelude::*;

use std::collections::HashMap;

use crate::keywords::{matches_keywords, KeywordMatcher};
use crate::search::SearchString;
use crate::text::{deunicode, deunicoded, lowercase_of, str_eq, to_lowercase};
use crate::title::Title;
use crate::title_id::TitleId;

verus! {

/// An entry of the title index: a lookup text, a year (0 when the title has none) and the
/// position of the title it leads to.
pub ghost struct Indexed {
    pub key: Seq<char>,
    pub year: u16,
    pub cookie: nat,
}

/// The lookup texts of a text: its lowercase form, preceded by the ASCII transliteration of
/// that when the two differ.
pub open spec fn text_keys(t: Seq<char>) -> Seq<Seq<char>> {
    let lc = lowercase_of(t);
    let d = deunicoded(lc);
    if d != lc {
        seq![d, lc]
    } else {
        seq![lc]
    }
}

/// The lookup texts of a title: those of its primary title, then those of its original title.
pub open spec fn title_keys(t: Title) -> Seq<Seq<char>> {
    text_keys(t.model().primary) + match t.model().original {
        Some(o) => text_keys(o),
        None => Seq::empty(),
    }
}

/// The year under which a title is indexed: its start year, or 0 when it has none.
pub open spec fn index_year(t: Title) -> u16 {
    match t.spec_header().spec_start_year() {
        Some(y) => y,
        None => 0,
    }
}

/// The index entries of the title at position `cookie`.
pub open spec fn title_index(t: Title, cookie: nat) -> Seq<Indexed> {
    title_keys(t).map_values(|k: Seq<char>| Indexed { key: k, year: index_year(t), cookie })
}

/// The index entries of titles stored in order.
pub open spec fn index_of(ts: Seq<Title>) -> Seq<Indexed>
    decreases ts.len(),
{
    if ts.len() == 0 {
        Seq::empty()
    } else {
        index_of(ts.drop_last()) + title_index(ts.last(), (ts.len() - 1) as nat)
    }
}

/// The position of the last title with ID number `num`, if any.
pub open spec fn last_with_id(ts: Seq<Title>, num: usize) -> Option<nat>
    decreases ts.len(),
{
    if ts.len() == 0 {
        None
    } else if ts.last().spec_title_id().spec_num() == num {
        Some((ts.len() - 1) as nat)
    } else {
        last_with_id(ts.drop_last(), num)
    }
}

/// The positions in the entries that `keep` keeps, in order.
pub open spec fn selected(index: Seq<Indexed>, keep: spec_fn(Indexed) -> bool) -> Seq<nat>
    decreases index.len(),
{
    if index.len() == 0 {
        Seq::empty()
    } else {
        let rest = selected(index.drop_last(), keep);
        if keep(index.last()) {
            rest.push(index.last().cookie)
        } else {
            rest
        }
    }
}

/// The titles at the given positions.
pub open spec fn titles_at(ts: Seq<Title>, cookies: Seq<nat>) -> Seq<Title> {
    cookies.map_values(|c: nat| ts[c as int])
}

/// An entry of the title index.
struct IndexEntry {
    key: String,
    year: u16,
    cookie: usize,
}

impl IndexEntry {
    closed spec fn view(&self) -> Indexed {
        Indexed { key: self.key@, year: self.year, cookie: self.cookie as nat }
    }
}

/// The entries of the index, as ghost values.
closed spec fn entries_view(v: Seq<IndexEntry>) -> Seq<Indexed> {
    v.map_values(|e: IndexEntry| e.view())
}

/// What a search keeps.
enum Selector<'a> {
    Title(&'a SearchString),
    TitleAndYear(&'a SearchString, u16),
    Keywords(&'a KeywordMatcher),
    KeywordsAndYear(&'a KeywordMatcher, u16),
}

/// Whether an index entry is for the title text `key`.
pub open spec fn has_key(key: Seq<char>) -> spec_fn(Indexed) -> bool {
    |e: Indexed| e.key == key
}

/// Whether an index entry is for the title text `key` and the year `year`.
pub open spec fn has_key_and_year(key: Seq<char>, year: u16) -> spec_fn(Indexed) -> bool {
    |e: Indexed| e.key == key && e.year == year
}

/// Whether a leftmost-first search of the title text of an index entry finds each of the
/// keywords `patterns`.
pub open spec fn has_keywords(patterns: Seq<Seq<u8>>) -> spec_fn(Indexed) -> bool {
    |e: Indexed| matches_keywords(patterns, vstd::utf8::encode_utf8(e.key))
}

/// Whether a leftmost-first search of the title text of an index entry finds each of the
/// keywords `patterns`, and its year is `year`.
pub open spec fn has_keywords_and_year(patterns: Seq<Seq<u8>>, year: u16) -> spec_fn(
    Indexed,
) -> bool {
    |e: Indexed| matches_keywords(patterns, vstd::utf8::encode_utf8(e.key)) && e.year == year
}

closed spec fn keeps(sel: Selector) -> spec_fn(Indexed) -> bool {
    match sel {
        Selector::Title(s) => has_key(s.view()),
        Selector::TitleAndYear(s, y) => has_key_and_year(s.view(), y),
        Selector::Keywords(m) => has_keywords(m.spec_patterns()),
        Selector::KeywordsAndYear(m, y) => has_keywords_and_year(m.spec_patterns(), y),
    }
}

/// A database of titles, found by ID, by title and year, or by keywords.
pub struct DbImpl {
    titles: Vec<Title>,
    by_id: HashMap<usize, usize>,
    by_title: Vec<IndexEntry>,
}

impl DbImpl {
    /// The titles stored, in the order of storing.
    pub closed spec fn spec_titles(&self) -> Seq<Title> {
        self.titles@
    }

    /// Every title is well formed, the index holds the entries of the titles, and the ID map
    /// leads each ID number to the last title with it.
    pub closed spec fn wf(&self) -> bool {
        &&& forall|i: int| 0 <= i < self.titles@.len() ==> #[trigger] self.titles@[i].wf()
        &&& entries_view(self.by_title@) == index_of(self.titles@)
        &&& forall|j: int|
            0 <= j < self.by_title@.len() ==> #[trigger] self.by_title@[j].cookie
                < self.titles@.len()
        &&& forall|k: usize|
            #![trigger self.by_id@.contains_key(k)]
            #![trigger last_with_id(self.titles@, k)]
            match last_with_id(self.titles@, k) {
                Some(i) => self.by_id@.contains_key(k) && self.by_id@[k] == i,
                None => !self.by_id@.contains_key(k),
            }
    }

    /// Makes an empty database with room for `cap` titles.
    pub fn with_capacity(cap: usize) -> (r: DbImpl)
        ensures
            r.wf(),
            r.spec_titles() == Seq::<Title>::empty(),
    {
        let r = DbImpl {
            titles: Vec::with_capacity(cap),
            by_id: HashMap::new(),
            by_title: Vec::new(),
        };
        proof {
            assert(entries_view(r.by_title@) =~= Seq::<Indexed>::empty());
            assert forall|k: usize| #![auto] !r.by_id@.contains_key(k) by {
                broadcast use vstd::std_specs::hash::group_hash_axioms;
            }
        }
        r
    }

    /// The number of titles stored.
    pub fn n_titles(&self) -> (r: usize)
        ensures
            r == self.spec_titles().len(),
    {
        self.titles.len()
    }

    /// Adds index entries for the lookup texts of `text`.
    fn insert_text_keys(&mut self, text: &str, year: u16, cookie: usize)
        ensures
            entries_view(final(self).by_title@) == entries_view(old(self).by_title@) + text_keys(
                text@,
            ).map_values(|k: Seq<char>| Indexed { key: k, year, cookie: cookie as nat }),
            forall|j: int|
                0 <= j < final(self).by_title@.len() ==> #[trigger] final(self).by_title@[j].cookie
                    == if j < old(self).by_title@.len() {
                    old(self).by_title@[j].cookie
                } else {
                    cookie
                },
            final(self).titles@ == old(self).titles@,
            final(self).by_id@ == old(self).by_id@,
    {
        let lc = to_lowercase(text);
        let d = deunicode(lc.as_str());
        let ghost keys = text_keys(text@);
        let ghost f = |k: Seq<char>| Indexed { key: k, year, cookie: cookie as nat };
        let ghost old_view = entries_view(self.by_title@);
        if !str_eq(d.as_str(), lc.as_str()) {
            self.by_title.push(IndexEntry { key: d, year, cookie });
        }
        self.by_title.push(IndexEntry { key: lc, year, cookie });
        proof {
            assert(entries_view(self.by_title@) =~= old_view + keys.map_values(f));
        }
    }

    /// Stores a title, and indexes it by its ID number, and by the lowercase forms of its
    /// primary and original titles and their ASCII transliterations, with its start year.
    pub fn store_title(&mut self, title: Title)
        requires
            old(self).wf(),
            title.wf(),
        ensures
            final(self).wf(),
            final(self).spec_titles() == old(self).spec_titles().push(title),
    {
        broadcast use vstd::std_specs::hash::group_hash_axioms;

        let cookie = self.titles.len();
        let ghost old_titles = self.titles@;
        let ghost old_entries = self.by_title@;
        let num = title.title_id().as_usize();
        self.by_id.insert(num, cookie);
        let year = match title.start_year() {
            Some(y) => y,
            None => 0,
        };
        let ghost f = |k: Seq<char>| Indexed { key: k, year, cookie: cookie as nat };
        self.insert_text_keys(title.primary_title(), year, cookie);
        let ghost mid_entries = self.by_title@;
        match title.original_title() {
            Some(original) => {
                self.insert_text_keys(original, year, cookie);
            },
            None => {},
        }
        self.titles.push(title);
        proof {
            let ts = self.titles@;
            assert(ts.drop_last() =~= old_titles);
            assert(ts.last() == title);
            assert(index_year(title) == year);
            let keys = title_keys(title);
            let primary_keys = text_keys(title.model().primary);
            match title.model().original {
                Some(o) => {
                    assert(keys.map_values(f) =~= primary_keys.map_values(f) + text_keys(
                        o,
                    ).map_values(f));
                },
                None => {
                    assert(keys =~= primary_keys);
                    assert(entries_view(self.by_title@) =~= entries_view(mid_entries));
                },
            }
            assert(title_index(title, cookie as nat) =~= keys.map_values(f));
            assert(entries_view(self.by_title@) =~= index_of(ts));
            assert forall|j: int| 0 <= j < self.by_title@.len() implies #[trigger] self.by_title@[j].cookie
                < ts.len() by {
                if j < old_entries.len() {
                    assert(old_entries[j].cookie < old_titles.len());
                }
            }
            assert forall|k: usize|
                #![trigger self.by_id@.contains_key(k)]
                #![trigger last_with_id(ts, k)]
                match last_with_id(ts, k) {
                    Some(i) => self.by_id@.contains_key(k) && self.by_id@[k] == i,
                    None => !self.by_id@.contains_key(k),
                } by {
                if k != num {
                    assert(last_with_id(ts, k) == last_with_id(old_titles, k));
                }
            }
            assert forall|i: int| 0 <= i < ts.len() implies #[trigger] ts[i].wf() by {
                if i < old_titles.len() {
                    assert(ts[i] == old_titles[i]);
                }
            }
        }
    }

    /// Returns the last stored title with the ID number of `id`, if any.
    pub fn by_id(&self, id: &TitleId) -> (r: Option<&Title>)
        requires
            self.wf(),
        ensures
            match last_with_id(self.spec_titles(), id.spec_num()) {
                Some(i) => r == Some(&self.spec_titles()[i as int]),
                None => r is None,
            },
    {
        broadcast use vstd::std_specs::hash::group_hash_axioms;

        let num = id.as_usize();
        proof {
            assert(last_with_id(self.titles@, num) == last_with_id(self.titles@, num));
        }
        match self.by_id.get(&num) {
            Some(cookie) => {
                proof {
                    lemma_last_with_id_bound(self.titles@, num);
                }
                Some(&self.titles[*cookie])
            },
            None => None,
        }
    }

    /// Returns the titles of the index entries that `sel` keeps, in the order of the entries.
    fn select(&self, sel: Selector) -> (r: Vec<&Title>)
        requires
            self.wf(),
        ensures
            r@.len() == selected(index_of(self.spec_titles()), keeps(sel)).len(),
            forall|i: int|
                0 <= i < r@.len() ==> *r@[i] == self.spec_titles()[selected(
                    index_of(self.spec_titles()),
                    keeps(sel),
                )[i] as int],
    {
        let mut r: Vec<&Title> = Vec::new();
        let mut j: usize = 0;
        let ghost index = index_of(self.titles@);
        let ghost keep = keeps(sel);
        while j < self.by_title.len()
            invariant
                self.wf(),
                index == index_of(self.titles@),
                keep == keeps(sel),
                j <= self.by_title@.len(),
                r@.len() == selected(index.take(j as int), keep).len(),
                forall|i: int|
                    0 <= i < r@.len() ==> *r@[i] == self.titles@[selected(
                        index.take(j as int),
                        keep,
                    )[i] as int],
            decreases self.by_title@.len() - j,
        {
            let entry = &self.by_title[j];
            let ghost e = entry.view();
            proof {
                assert(entries_view(self.by_title@)[j as int] == e);
                assert(index.take(j + 1).drop_last() =~= index.take(j as int));
                assert(index.take(j + 1).last() == e);
            }
            let kept = match sel {
                Selector::Title(s) => str_eq(entry.key.as_str(), s.as_str()),
                Selector::TitleAndYear(s, y) => entry.year == y && str_eq(
                    entry.key.as_str(),
                    s.as_str(),
                ),
                Selector::Keywords(m) => m.matches(entry.key.as_str().as_bytes()),
                Selector::KeywordsAndYear(m, y) => entry.year == y && m.matches(
                    entry.key.as_str().as_bytes(),
                ),
            };
            assert(kept == keep(e));
            if kept {
                r.push(&self.titles[entry.cookie]);
            }
            j += 1;
        }
        proof {
            assert(index.take(j as int) =~= index);
        }
        r
    }

    /// Returns the titles indexed under the search string, in the order of the index.
    pub fn by_title(&self, title: &SearchString) -> (r: Vec<&Title>)
        requires
            self.wf(),
        ensures
            r@.map_values(|t: &Title| *t) == titles_at(
                self.spec_titles(),
                selected(index_of(self.spec_titles()), has_key(title.view())),
            ),
    {
        let r = self.select(Selector::Title(title));
        proof {
            lemma_titles_at(r@, self.titles@, selected(index_of(self.titles@), has_key(title.view())));
        }
        r
    }

    /// Returns the titles indexed under the search string and the year, in the order of the
    /// index.
    pub fn by_title_and_year(&self, title: &SearchString, year: u16) -> (r: Vec<&Title>)
        requires
            self.wf(),
        ensures
            r@.map_values(|t: &Title| *t) == titles_at(
                self.spec_titles(),
                selected(index_of(self.spec_titles()), has_key_and_year(title.view(), year)),
            ),
    {
        let r = self.select(Selector::TitleAndYear(title, year));
        proof {
            lemma_titles_at(
                r@,
                self.titles@,
                selected(index_of(self.titles@), has_key_and_year(title.view(), year)),
            );
        }
        r
    }

    /// Returns the titles whose indexed texts match all keywords of the matcher, in the order
    /// of the index.
    pub fn by_keywords(&self, matcher: &KeywordMatcher) -> (r: Vec<&Title>)
        requires
            self.wf(),
        ensures
            r@.map_values(|t: &Title| *t) == titles_at(
                self.spec_titles(),
                selected(index_of(self.spec_titles()), has_keywords(matcher.spec_patterns())),
            ),
    {
        let r = self.select(Selector::Keywords(matcher));
        proof {
            lemma_titles_at(r@, self.titles@, selected(index_of(self.titles@), has_keywords(matcher.spec_patterns())));
        }
        r
    }

    /// Returns the titles whose indexed texts match all keywords of the matcher and which are
    /// indexed under the year, in the order of the index.
    pub fn by_keywords_and_year(&self, matcher: &KeywordMatcher, year: u16) -> (r: Vec<&Title>)
        requires
            self.wf(),
        ensures
            r@.map_values(|t: &Title| *t) == titles_at(
                self.spec_titles(),
                selected(index_of(self.spec_titles()), has_keywords_and_year(matcher.spec_patterns(), year)),
            ),
    {
        let r = self.select(Selector::KeywordsAndYear(matcher, year));
        proof {
            lemma_titles_at(
                r@,
                self.titles@,
                selected(index_of(self.titles@), has_keywords_and_year(matcher.spec_patterns(), year)),
            );
        }
        r
    }
}

/// The last title with an ID number lies within the titles and has that number.
proof fn lemma_last_with_id_bound(ts: Seq<Title>, num: usize)
    ensures
        last_with_id(ts, num) matches Some(i) ==> i < ts.len() && ts[i as int].spec_title_id().spec_num()
            == num,
    decreases ts.len(),
{
    if ts.len() > 0 && ts.last().spec_title_id().spec_num() != num {
        lemma_last_with_id_bound(ts.drop_last(), num);
    }
}

/// Titles read through references at the selected positions are the titles at those positions.
proof fn lemma_titles_at(r: Seq<&Title>, ts: Seq<Title>, cookies: Seq<nat>)
    requires
        r.len() == cookies.len(),
        forall|i: int| 0 <= i < r.len() ==> *r[i] == ts[cookies[i] as int],
    ensures
        r.map_values(|t: &Title| *t) == titles_at(ts, cookies),
{
    assert(r.map_values(|t: &Title| *t) =~= titles_at(ts, cookies));
}

/// Whether a query is for movies or for series.
#[derive(Debug, Clone, Copy, PartialEq, Eq, Structural)]
pub enum Query {
    /// Query the movies.
    Movies,
    /// Query the series.
    Series,
}

impl Query {
    /// The name of what the query is for: `movie` or `series`.
    pub fn name(&self) -> (r: &'static str)
        ensures
            r@ == (match self {
                Query::Movies => "movie"@,
                Query::Series => "series"@,
            }),
    {
        match self {
            Query::Movies => "movie",
            Query::Series => "series",
        }
    }
}

/// The database of movies and series.
pub struct Db {
    movies: DbImpl,
    series: DbImpl,
}

impl Db {
    /// Both databases are well formed.
    pub closed spec fn wf(&self) -> bool {
        self.movies.wf() && self.series.wf()
    }

    /// The movies stored, in the order of storing.
    pub closed spec fn spec_movies(&self) -> Seq<Title> {
        self.movies.spec_titles()
    }

    /// The series stored, in the order of storing.
    pub closed spec fn spec_series(&self) -> Seq<Title> {
        self.series.spec_titles()
    }

    /// The titles that a query is for.
    pub open spec fn spec_titles(&self, query: Query) -> Seq<Title> {
        match query {
            Query::Movies => self.spec_movies(),
            Query::Series => self.spec_series(),
        }
    }

    /// Makes an empty database with room for the given numbers of movies and series.
    pub fn with_capacities(movies_cap: usize, series_cap: usize) -> (r: Db)
        ensures
            r.wf(),
            r.spec_movies() == Seq::<Title>::empty(),
            r.spec_series() == Seq::<Title>::empty(),
    {
        Db { movies: DbImpl::with_capacity(movies_cap), series: DbImpl::with_capacity(series_cap) }
    }

    /// The number of movies.
    pub fn n_movies(&self) -> (r: usize)
        ensures
            r == self.spec_movies().len(),
    {
        self.movies.n_titles()
    }

    /// The number of series.
    pub fn n_series(&self) -> (r: usize)
        ensures
            r == self.spec_series().len(),
    {
        self.series.n_titles()
    }

    /// The number of movies and series together.
    pub fn n_entries(&self) -> (r: usize)
        requires
            self.spec_movies().len() + self.spec_series().len() <= usize::MAX,
        ensures
            r == self.spec_movies().len() + self.spec_series().len(),
    {
        self.n_movies() + self.n_series()
    }

    /// Stores a title among the titles that a query is for.
    pub fn store(&mut self, title: Title, query: Query)
        requires
            old(self).wf(),
            title.wf(),
        ensures
            final(self).wf(),
            final(self).spec_titles(query) == old(self).spec_titles(query).push(title),
            query == Query::Movies ==> final(self).spec_series() == old(self).spec_series(),
            query == Query::Series ==> final(self).spec_movies() == old(self).spec_movies(),
    {
        match query {
            Query::Movies => self.movies.store_title(title),
            Query::Series => self.series.store_title(title),
        }
    }

    /// Stores a movie.
    pub fn store_movie(&mut self, title: Title)
        requires
            old(self).wf(),
            title.wf(),
        ensures
            final(self).wf(),
            final(self).spec_movies() == old(self).spec_movies().push(title),
            final(self).spec_series() == old(self).spec_series(),
    {
        self.store(title, Query::Movies)
    }

    /// Stores a series.
    pub fn store_series(&mut self, title: Title)
        requires
            old(self).wf(),
            title.wf(),
        ensures
            final(self).wf(),
            final(self).spec_series() == old(self).spec_series().push(title),
            final(self).spec_movies() == old(self).spec_movies(),
    {
        self.store(title, Query::Series)
    }

    fn part(&self, query: Query) -> (r: &DbImpl)
        requires
            self.wf(),
        ensures
            r.wf(),
            r.spec_titles() == self.spec_titles(query),
    {
        match query {
            Query::Movies => &self.movies,
            Query::Series => &self.series,
        }
    }

    /// Returns the last stored title of the query with the ID number of `id`, if any.
    pub fn by_id(&self, id: &TitleId, query: Query) -> (r: Option<&Title>)
        requires
            self.wf(),
        ensures
            match last_with_id(self.spec_titles(query), id.spec_num()) {
                Some(i) => r == Some(&self.spec_titles(query)[i as int]),
                None => r is None,
            },
    {
        self.part(query).by_id(id)
    }

    /// Returns the titles of the query indexed under the search string.
    pub fn by_title(&self, title: &SearchString, query: Query) -> (r: Vec<&Title>)
        requires
            self.wf(),
        ensures
            r@.map_values(|t: &Title| *t) == titles_at(
                self.spec_titles(query),
                selected(index_of(self.spec_titles(query)), has_key(title.view())),
            ),
    {
        self.part(query).by_title(title)
    }

    /// Returns the titles of the query indexed under the search string and the year.
    pub fn by_title_and_year(&self, title: &SearchString, year: u16, query: Query) -> (r: Vec<
        &Title,
    >)
        requires
            self.wf(),
        ensures
            r@.map_values(|t: &Title| *t) == titles_at(
                self.spec_titles(query),
                selected(index_of(self.spec_titles(query)), has_key_and_year(title.view(), year)),
            ),
    {
        self.part(query).by_title_and_year(title, year)
    }

    /// Returns the titles of the query whose indexed texts match all keywords of the matcher.
    pub fn by_keywords(&self, matcher: &KeywordMatcher, query: Query) -> (r: Vec<&Title>)
        requires
            self.wf(),
        ensures
            r@.map_values(|t: &Title| *t) == titles_at(
                self.spec_titles(query),
                selected(index_of(self.spec_titles(query)), has_keywords(matcher.spec_patterns())),
            ),
    {
        self.part(query).by_keywords(matcher)
    }

    /// Returns the titles of the query whose indexed texts match all keywords of the matcher
    /// and which are indexed under the year.
    pub fn by_keywords_and_year(&self, matcher: &KeywordMatcher, year: u16, query: Query) -> (r:
        Vec<&Title>)
        requires
            self.wf(),
        ensures
            r@.map_values(|t: &Title| *t) == titles_at(
                self.spec_titles(query),
                selected(
                    index_of(self.spec_titles(query)),
                    has_keywords_and_year(matcher.spec_patterns(), year),
                ),
            ),
    {
        self.part(query).by_keywords_and_year(matcher, year)
    }
}

/// Selecting from entries one after another selects from each part in turn.
pub proof fn lemma_selected_concat(a: Seq<Indexed>, b: Seq<Indexed>, keep: spec_fn(Indexed) -> bool)
    ensures
        selected(a + b, keep) == selected(a, keep) + selected(b, keep),
    decreases b.len(),
{
    if b.len() == 0 {
        assert(a + b =~= a);
        assert(selected(a, keep) + selected(b, keep) =~= selected(a, keep));
    } else {
        assert((a + b).drop_last() =~= a + b.drop_last());
        assert((a + b).last() == b.last());
        lemma_selected_concat(a, b.drop_last(), keep);
        if keep(b.last()) {
            assert(selected(a, keep) + selected(b, keep) =~= (selected(a, keep) + selected(
                b.drop_last(),
                keep,
            )).push(b.last().cookie));
        }
    }
}

/// The positions that selecting from the entries of one title gives are that title's
/// position, once for each of its entries that `keep` keeps.
proof fn lemma_selected_title(t: Title, c: nat, keep: spec_fn(Indexed) -> bool, d: nat)
    ensures
        selected(title_index(t, c), keep).contains(d) <==> d == c && exists|j: int|
            0 <= j < title_keys(t).len() && #[trigger] keep(
                Indexed { key: title_keys(t)[j], year: index_year(t), cookie: c },
            ),
{
    let keys = title_keys(t);
    let e = title_index(t, c);
    lemma_selected_positions(e, keep, d);
    if selected(e, keep).contains(d) {
        let i = choose|i: int| 0 <= i < e.len() && e[i].cookie == d && keep(e[i]);
        assert(e[i] == Indexed { key: keys[i], year: index_year(t), cookie: c });
    }
    if d == c && exists|j: int|
        0 <= j < keys.len() && #[trigger] keep(
            Indexed { key: keys[j], year: index_year(t), cookie: c },
        ) {
        let j = choose|j: int|
            0 <= j < keys.len() && #[trigger] keep(
                Indexed { key: keys[j], year: index_year(t), cookie: c },
            );
        assert(e[j] == Indexed { key: keys[j], year: index_year(t), cookie: c });
    }
}

/// A position is selected exactly when an entry kept by `keep` leads to it.
proof fn lemma_selected_positions(index: Seq<Indexed>, keep: spec_fn(Indexed) -> bool, d: nat)
    ensures
        selected(index, keep).contains(d) <==> exists|i: int|
            0 <= i < index.len() && index[i].cookie == d && #[trigger] keep(index[i]),
    decreases index.len(),
{
    if index.len() > 0 {
        let init = index.drop_last();
        let last = index.last();
        let n = index.len() - 1;
        let sub = selected(init, keep);
        let all = selected(index, keep);
        lemma_selected_positions(init, keep, d);
        if all.contains(d) {
            let k = choose|k: int| 0 <= k < all.len() && all[k] == d;
            if keep(last) && k == sub.len() {
                assert(index[n] == last);
                assert(index[n].cookie == d && keep(index[n]));
            } else {
                assert(sub[k] == d);
                let i = choose|i: int| 0 <= i < init.len() && init[i].cookie == d && #[trigger] keep(
                    init[i],
                );
                assert(index[i] == init[i]);
            }
        }
        if exists|i: int| 0 <= i < index.len() && index[i].cookie == d && #[trigger] keep(index[i]) {
            let i = choose|i: int|
                0 <= i < index.len() && index[i].cookie == d && #[trigger] keep(index[i]);
            if i < n {
                assert(init[i] == index[i]);
                assert(sub.contains(d));
                let k = choose|k: int| 0 <= k < sub.len() && sub[k] == d;
                assert(all[k] == d);
            } else {
                assert(index[i] == last);
                assert(all[sub.len() as int] == d);
            }
        }
    }
}

/// What a lookup finds is exactly the stored titles one of whose lookup texts, with the
/// title's index year, is kept: position `c` is selected from the index of the titles `ts`
/// when, and only when, `c` is the position of a title with such a lookup text.
pub proof fn lemma_found_iff(ts: Seq<Title>, keep: spec_fn(Indexed) -> bool, c: nat)
    ensures
        selected(index_of(ts), keep).contains(c) <==> c < ts.len() && exists|j: int|
            0 <= j < title_keys(ts[c as int]).len() && #[trigger] keep(
                Indexed {
                    key: title_keys(ts[c as int])[j],
                    year: index_year(ts[c as int]),
                    cookie: c,
                },
            ),
    decreases ts.len(),
{
    if ts.len() > 0 {
        let init = ts.drop_last();
        let n = (ts.len() - 1) as nat;
        lemma_found_iff(init, keep, c);
        lemma_selected_concat(index_of(init), title_index(ts.last(), n), keep);
        lemma_selected_title(ts.last(), n, keep, c);
        if c < n {
            assert(init[c as int] == ts[c as int]);
        }
        let a = selected(index_of(init), keep);
        let b = selected(title_index(ts.last(), n), keep);
        if (a + b).contains(c) {
            let k = choose|k: int| 0 <= k < (a + b).len() && (a + b)[k] == c;
            if k < a.len() {
                assert(a[k] == c);
            } else {
                assert(b[k - a.len()] == c);
            }
        }
        if a.contains(c) {
            let k = choose|k: int| 0 <= k < a.len() && a[k] == c;
            assert((a + b)[k] == c);
        }
        if b.contains(c) {
            let k = choose|k: int| 0 <= k < b.len() && b[k] == c;
            assert((a + b)[a.len() + k] == c);
        }
        if c < ts.len() && !(c < n) {
            assert(c == n);
        }
    }
}

/// What a lookup finds before a title is stored, it finds after, and the stored title's own
/// entries come last.
pub proof fn lemma_store_keeps_found(ts: Seq<Title>, t: Title, keep: spec_fn(Indexed) -> bool)
    ensures
        selected(index_of(ts.push(t)), keep) == selected(index_of(ts), keep) + selected(
            title_index(t, ts.len()),
            keep,
        ),
{
    assert(ts.push(t).drop_last() =~= ts);
    lemma_selected_concat(index_of(ts), title_index(t, ts.len()), keep);
}

/// A lookup by ID right after a title is stored gives that title.
pub proof fn lemma_store_then_by_id(ts: Seq<Title>, t: Title)
    ensures
        last_with_id(ts.push(t), t.spec_title_id().spec_num()) == Some(ts.len()),
{
}

/// A lookup by ID gives what it gave before a title is stored, unless the stored title has
/// that ID number.
pub proof fn lemma_store_keeps_by_id(ts: Seq<Title>, t: Title, num: usize)
    requires
        t.spec_title_id().spec_num() != num,
    ensures
        last_with_id(ts.push(t), num) == last_with_id(ts, num),
{
    assert(ts.push(t).drop_last() =~= ts);
}

/// A title is found under the lowercase form of its primary title, with its index year, and
/// under that of its original title, if any.
pub proof fn lemma_title_keys_lowercase(t: Title)
    ensures
        title_keys(t).contains(lowercase_of(t.model().primary)),
        t.model().original matches Some(o) ==> title_keys(t).contains(lowercase_of(o)),
{
    let p = text_keys(t.model().primary);
    let k = title_keys(t);
    assert(p.contains(lowercase_of(t.model().primary))) by {
        if p.len() == 2 {
            assert(p[1] == lowercase_of(t.model().primary));
        } else {
            assert(p[0] == lowercase_of(t.model().primary));
        }
    }
    let i = choose|i: int| 0 <= i < p.len() && p[i] == lowercase_of(t.model().primary);
    assert(k[i] == p[i]);
    match t.model().original {
        Some(o) => {
            let q = text_keys(o);
            assert(k == p + q);
            let j = if q.len() == 2 {
                1int
            } else {
                0int
            };
            assert(q[j] == lowercase_of(o));
            assert(k[p.len() + j] == q[j]);
        },
        None => {},
    }
}

} // verus!
