//! The title service: databases loaded from the binary forms of movies and series, and the
//! lookups on them.

use vstd::prelude::*;

use crate::db::{
    has_key, has_key_and_year, has_keywords, has_keywords_and_year, index_of, last_with_id,
    selected, titles_at, Db, Query,
};
use crate::keywords::{builds_leftmost_first, keyword_bytes, KeywordMatcher, KeywordsError};
use crate::search::SearchString;
use crate::title::{
    after_titles, binary_all, binary_all_input, binary_stream, lemma_binary_chunk, BinaryStream, Title, TitleError,
    TitleModel,
};
use crate::title_id::TitleId;

verus! {

/// Errors when loading the databases.
#[derive(Debug, Clone, PartialEq, Eq)]
pub enum LoadError {
    /// A title could not be read.
    LoadingTitle(TitleError),
}

/// Whether `ts` extends `before` with titles whose contents are `ms`, each well formed.
pub open spec fn extends_with(before: Seq<Title>, ts: Seq<Title>, ms: Seq<TitleModel>) -> bool {
    &&& ts.len() == before.len() + ms.len()
    &&& forall|i: int| 0 <= i < before.len() ==> #[trigger] ts[i] == before[i]
    &&& forall|i: int|
        0 <= i < ms.len() ==> #[trigger] ts[before.len() + i].wf() && ts[before.len() + i].model()
            == ms[i]
}

/// Whether `e` is the error of reading binary forms that give `b`.
pub open spec fn stream_error(b: BinaryStream, e: TitleError) -> bool {
    match b {
        BinaryStream::Eof => e == TitleError::Eof,
        BinaryStream::Id(id) => e matches TitleError::IdParsing(ie) && TitleId::try_from_error(
            id,
            ie,
        ),
        BinaryStream::Done(..) => false,
    }
}

/// Storing a title with the next content keeps `ts` extending `start`.
proof fn lemma_extends_push(
    start: Seq<Title>,
    prev: Seq<Title>,
    now: Seq<Title>,
    ms: Seq<TitleModel>,
    i: int,
    t: Title,
)
    requires
        0 <= i < ms.len(),
        extends_with(start, prev, ms.take(i)),
        now == prev.push(t),
        t.wf(),
        t.model() == ms[i],
    ensures
        extends_with(start, now, ms.take(i + 1)),
{
    assert forall|k: int| 0 <= k < start.len() implies #[trigger] now[k] == start[k] by {
        assert(now[k] == prev[k]);
    }
    assert forall|k: int| 0 <= k < i + 1 implies #[trigger] now[start.len() + k].wf() && now[start.len()
        + k].model() == ms.take(i + 1)[k] by {
        if k < i {
            assert(prev[start.len() + k].wf());
            assert(now[start.len() + k] == prev[start.len() + k]);
            assert(ms.take(i)[k] == ms[k]);
        } else {
            assert(now[start.len() + k] == t);
        }
    }
}

/// Extending twice extends with both contents, one after the other.
proof fn lemma_extends_concat(
    before: Seq<Title>,
    mid: Seq<Title>,
    now: Seq<Title>,
    a: Seq<TitleModel>,
    b: Seq<TitleModel>,
)
    requires
        extends_with(before, mid, a),
        extends_with(mid, now, b),
    ensures
        extends_with(before, now, a + b),
{
    let all = a + b;
    assert forall|k: int| 0 <= k < before.len() implies #[trigger] now[k] == before[k] by {
        assert(now[k] == mid[k]);
    }
    assert forall|k: int| 0 <= k < all.len() implies #[trigger] now[before.len() + k].wf()
        && now[before.len() + k].model() == all[k] by {
        if k < a.len() {
            assert(mid[before.len() + k].wf());
            assert(now[before.len() + k] == mid[before.len() + k]);
        } else {
            let kk = k - a.len();
            assert(now[mid.len() + kk].wf());
        }
    }
}

/// The number of titles read at a time.
const CHUNK: usize = 100;

/// Stores, among the titles of the query, every title whose binary form is in `data`, read a
/// hundred at a time.
pub fn load_titles(db: &mut Db, data: &[u8], query: Query) -> (r: Result<(), TitleError>)
    requires
        old(db).wf(),
        binary_all_input(data@),
    ensures
        final(db).wf(),
        query == Query::Movies ==> final(db).spec_series() == old(db).spec_series(),
        query == Query::Series ==> final(db).spec_movies() == old(db).spec_movies(),
        match binary_all(data@) {
            BinaryStream::Done(ms, _) => r is Ok && extends_with(
                old(db).spec_titles(query),
                final(db).spec_titles(query),
                ms,
            ),
            other => r matches Err(e) && stream_error(other, e),
        },
{
    let mut pos: usize = 0;
    let ghost before = db.spec_titles(query);
    let ghost mut loaded: Seq<TitleModel> = Seq::empty();
    proof {
        assert(data@.skip(0) =~= data@);
        match binary_all(data@) {
            BinaryStream::Done(ms, n) => {
                assert(Seq::<TitleModel>::empty() + ms =~= ms);
            },
            _ => {},
        }
    }
    while pos < data.len()
        invariant
            db.wf(),
            query == Query::Movies ==> db.spec_series() == old(db).spec_series(),
            query == Query::Series ==> db.spec_movies() == old(db).spec_movies(),
            before == old(db).spec_titles(query),
            pos <= data@.len(),
            binary_all_input(data@.skip(pos as int)),
            extends_with(before, db.spec_titles(query), loaded),
            after_titles(loaded, pos as nat, binary_all(data@.skip(pos as int))) == binary_all(
                data@,
            ),
        decreases data@.len() - pos,
    {
        let rest = vstd::slice::slice_subrange(data, pos, data.len());
        let ghost rs = data@.skip(pos as int);
        assert(rest@ =~= rs);
        proof {
            lemma_binary_chunk(rs, CHUNK as nat);
        }
        match Title::read_titles(rest, CHUNK) {
            Ok((titles, used)) => {
                let ghost chunk = titles@;
                let ghost ms = match binary_stream(rs, CHUNK as nat) {
                    BinaryStream::Done(ms, _) => ms,
                    _ => Seq::empty(),
                };
                proof {
                    assert(binary_stream(rs, CHUNK as nat) is Done);
                    assert forall|k: int| 0 <= k < ms.len() implies #[trigger] chunk[k].wf()
                        && chunk[k].model() == ms[k] by {
                        assert(titles@[k].wf());
                    }
                    assert(ms.take(0) =~= Seq::<TitleModel>::empty());
                }
                assert(chunk.len() == titles.len());
                let mut titles = titles;
                let mut i: usize = 0;
                let ghost start = db.spec_titles(query);
                while titles.len() > 0
                    invariant
                        db.wf(),
                        query == Query::Movies ==> db.spec_series() == old(db).spec_series(),
                        query == Query::Series ==> db.spec_movies() == old(db).spec_movies(),
                        i <= chunk.len(),
                        titles@ == chunk.skip(i as int),
                        titles@.len() == chunk.len() - i,
                        chunk.len() <= usize::MAX,
                        chunk.len() == ms.len(),
                        forall|k: int|
                            0 <= k < ms.len() ==> #[trigger] chunk[k].wf() && chunk[k].model()
                                == ms[k],
                        extends_with(start, db.spec_titles(query), ms.take(i as int)),
                    decreases titles@.len(),
                {
                    assert(i < chunk.len());
                    let t = titles.remove(0);
                    assert(t == chunk[i as int]);
                    assert(chunk[i as int].wf() && chunk[i as int].model() == ms[i as int]);
                    let ghost prev = db.spec_titles(query);
                    db.store(t, query);
                    proof {
                        assert(titles@ =~= chunk.skip(i + 1));
                        lemma_extends_push(start, prev, db.spec_titles(query), ms, i as int, t);
                    }
                    i += 1;
                }
                proof {
                    assert(ms.take(i as int) =~= ms);
                    let all = loaded + ms;
                    lemma_extends_concat(before, start, db.spec_titles(query), loaded, ms);
                    assert(rs.skip(used as int) =~= data@.skip(pos + used));
                    match binary_all(rs.skip(used as int)) {
                        BinaryStream::Done(ms2, n2) => {
                            assert(loaded + (ms + ms2) =~= all + ms2);
                        },
                        _ => {},
                    }
                    loaded = all;
                }
                pos = pos + used;
            },
            Err(e) => {
                proof {
                    match binary_all(data@) {
                        BinaryStream::Done(..) => {
                            assert(false);
                        },
                        _ => {},
                    }
                }
                return Err(e);
            },
        }
    }
    proof {
        assert(data@.skip(pos as int) =~= Seq::<u8>::empty());
        assert(loaded + Seq::<TitleModel>::empty() =~= loaded);
    }
    Ok(())
}

/// The movies and series databases, loaded from binary forms.
pub struct ServiceDbFromBinary {
    db: Db,
}

impl ServiceDbFromBinary {
    /// The database is well formed.
    pub closed spec fn wf(&self) -> bool {
        self.db.wf()
    }

    /// The titles that a query is for, in the order they were read.
    pub closed spec fn spec_titles(&self, query: Query) -> Seq<Title> {
        self.db.spec_titles(query)
    }

    /// Loads the movies from `movies_data` and the series from `series_data`; the first title
    /// that cannot be read, among the movies and then among the series, is an error.
    pub fn new(movies_data: &[u8], series_data: &[u8]) -> (r: Result<ServiceDbFromBinary, LoadError>)
        requires
            binary_all_input(movies_data@),
            binary_all_input(series_data@),
        ensures
            match (binary_all(movies_data@), binary_all(series_data@)) {
                (BinaryStream::Done(ms, _), BinaryStream::Done(ss, _)) => r matches Ok(s) && s.wf()
                    && extends_with(Seq::empty(), s.spec_titles(Query::Movies), ms) && extends_with(
                    Seq::empty(),
                    s.spec_titles(Query::Series),
                    ss,
                ),
                (BinaryStream::Done(..), other) => r matches Err(LoadError::LoadingTitle(e))
                    && stream_error(other, e),
                (other, _) => r matches Err(LoadError::LoadingTitle(e)) && stream_error(other, e),
            },
    {
        let mut db = Db::with_capacities(0, 0);
        match load_titles(&mut db, movies_data, Query::Movies) {
            Ok(()) => {},
            Err(e) => {
                return Err(LoadError::LoadingTitle(e));
            },
        }
        match load_titles(&mut db, series_data, Query::Series) {
            Ok(()) => {},
            Err(e) => {
                return Err(LoadError::LoadingTitle(e));
            },
        }
        Ok(ServiceDbFromBinary { db })
    }

    /// The numbers of movies and of series.
    pub fn n_entries(&self) -> (r: (usize, usize))
        ensures
            r.0 == self.spec_titles(Query::Movies).len(),
            r.1 == self.spec_titles(Query::Series).len(),
    {
        (self.db.n_movies(), self.db.n_series())
    }

    /// Returns the last title of the query with the ID number of `id`, if any.
    pub fn by_id(&self, id: &TitleId, query: Query) -> (r: Option<&Title>)
        requires
            self.wf(),
        ensures
            match last_with_id(self.spec_titles(query), id.spec_num()) {
                Some(i) => r == Some(&self.spec_titles(query)[i as int]),
                None => r is None,
            },
    {
        self.db.by_id(id, query)
    }

    /// Returns the titles of the query indexed under the search string.
    pub fn by_title(&self, title: &SearchString, query: Query) -> (r: Vec<&Title>)
        requires
            self.wf(),
        ensures
            r@.map_values(|t: &Title| *t) == titles_at(
                self.spec_titles(query),
                selected(index_of(self.spec_titles(query)), has_key(title.view())),
            ),
    {
        self.db.by_title(title, query)
    }

    /// Returns the titles of the query indexed under the search string and the year.
    pub fn by_title_and_year(&self, title: &SearchString, year: u16, query: Query) -> (r: Vec<
        &Title,
    >)
        requires
            self.wf(),
        ensures
            r@.map_values(|t: &Title| *t) == titles_at(
                self.spec_titles(query),
                selected(index_of(self.spec_titles(query)), has_key_and_year(title.view(), year)),
            ),
    {
        self.db.by_title_and_year(title, year, query)
    }

    /// Returns the titles of the query whose indexed texts match all keywords of the matcher.
    pub fn by_keywords(&self, matcher: &KeywordMatcher, query: Query) -> (r: Vec<&Title>)
        requires
            self.wf(),
        ensures
            r@.map_values(|t: &Title| *t) == titles_at(
                self.spec_titles(query),
                selected(index_of(self.spec_titles(query)), has_keywords(matcher.spec_patterns())),
            ),
    {
        self.db.by_keywords(matcher, query)
    }

    /// Returns the titles of the query whose indexed texts match all keywords of the matcher
    /// and which are indexed under the year.
    pub fn by_keywords_and_year(&self, matcher: &KeywordMatcher, year: u16, query: Query) -> (r:
        Vec<&Title>)
        requires
            self.wf(),
        ensures
            r@.map_values(|t: &Title| *t) == titles_at(
                self.spec_titles(query),
                selected(
                    index_of(self.spec_titles(query)),
                    has_keywords_and_year(matcher.spec_patterns(), year),
                ),
            ),
    {
        self.db.by_keywords_and_year(matcher, year, query)
    }
}

/// The movies and series databases and the lookups on them.
pub struct Service {
    service_db: ServiceDbFromBinary,
}

impl Service {
    /// The databases are well formed.
    pub closed spec fn wf(&self) -> bool {
        self.service_db.wf()
    }

    /// The titles that a query is for, in the order they were read.
    pub closed spec fn spec_titles(&self, query: Query) -> Seq<Title> {
        self.service_db.spec_titles(query)
    }

    /// Makes the service from the binary forms of the movies and of the series.
    pub fn from_binary(movies_data: &[u8], series_data: &[u8]) -> (r: Result<Service, LoadError>)
        requires
            binary_all_input(movies_data@),
            binary_all_input(series_data@),
        ensures
            match (binary_all(movies_data@), binary_all(series_data@)) {
                (BinaryStream::Done(ms, _), BinaryStream::Done(ss, _)) => r matches Ok(s) && s.wf()
                    && extends_with(Seq::empty(), s.spec_titles(Query::Movies), ms) && extends_with(
                    Seq::empty(),
                    s.spec_titles(Query::Series),
                    ss,
                ),
                (BinaryStream::Done(..), other) => r matches Err(LoadError::LoadingTitle(e))
                    && stream_error(other, e),
                (other, _) => r matches Err(LoadError::LoadingTitle(e)) && stream_error(other, e),
            },
    {
        match ServiceDbFromBinary::new(movies_data, series_data) {
            Ok(service_db) => Ok(Service { service_db }),
            Err(e) => Err(e),
        }
    }

    /// The numbers of movies and of series.
    pub fn n_entries(&self) -> (r: (usize, usize))
        ensures
            r.0 == self.spec_titles(Query::Movies).len(),
            r.1 == self.spec_titles(Query::Series).len(),
    {
        self.service_db.n_entries()
    }

    /// Returns the last title of the query with the ID number of `id`, if any.
    pub fn by_id(&self, id: &TitleId, query: Query) -> (r: Option<&Title>)
        requires
            self.wf(),
        ensures
            match last_with_id(self.spec_titles(query), id.spec_num()) {
                Some(i) => r == Some(&self.spec_titles(query)[i as int]),
                None => r is None,
            },
    {
        self.service_db.by_id(id, query)
    }

    /// Returns the titles of the query indexed under the search string.
    pub fn by_title(&self, title: &SearchString, query: Query) -> (r: Vec<&Title>)
        requires
            self.wf(),
        ensures
            r@.map_values(|t: &Title| *t) == titles_at(
                self.spec_titles(query),
                selected(index_of(self.spec_titles(query)), has_key(title.view())),
            ),
    {
        self.service_db.by_title(title, query)
    }

    /// Returns the titles of the query indexed under the search string and the year.
    pub fn by_title_and_year(&self, title: &SearchString, year: u16, query: Query) -> (r: Vec<
        &Title,
    >)
        requires
            self.wf(),
        ensures
            r@.map_values(|t: &Title| *t) == titles_at(
                self.spec_titles(query),
                selected(index_of(self.spec_titles(query)), has_key_and_year(title.view(), year)),
            ),
    {
        self.service_db.by_title_and_year(title, year, query)
    }

    /// Returns the titles of the query whose indexed texts match all the keywords; an error
    /// exactly when no matcher can be built for them.
    pub fn by_keywords(&self, keywords: &[SearchString], query: Query) -> (r: Result<
        Vec<&Title>,
        KeywordsError,
    >)
        requires
            self.wf(),
        ensures
            r is Ok <==> builds_leftmost_first(keyword_bytes(keywords@)),
            r matches Ok(ts) ==> ts@.map_values(|t: &Title| *t) == titles_at(
                self.spec_titles(query),
                selected(index_of(self.spec_titles(query)), has_keywords(keyword_bytes(keywords@))),
            ),
    {
        let matcher = match KeywordMatcher::new(keywords) {
            Ok(m) => m,
            Err(e) => {
                return Err(e);
            },
        };
        let r = self.service_db.by_keywords(&matcher, query);
        proof {
            assert(matcher.spec_patterns() == keyword_bytes(keywords@));
        }
        Ok(r)
    }

    /// Returns the titles of the query whose indexed texts match all the keywords and which
    /// are indexed under the year; an error exactly when no matcher can be built for the
    /// keywords.
    pub fn by_keywords_and_year(&self, keywords: &[SearchString], year: u16, query: Query) -> (r:
        Result<Vec<&Title>, KeywordsError>)
        requires
            self.wf(),
        ensures
            r is Ok <==> builds_leftmost_first(keyword_bytes(keywords@)),
            r matches Ok(ts) ==> ts@.map_values(|t: &Title| *t) == titles_at(
                self.spec_titles(query),
                selected(
                    index_of(self.spec_titles(query)),
                    has_keywords_and_year(keyword_bytes(keywords@), year),
                ),
            ),
    {
        let matcher = match KeywordMatcher::new(keywords) {
            Ok(m) => m,
            Err(e) => {
                return Err(e);
            },
        };
        let r = self.service_db.by_keywords_and_year(&matcher, year, query);
        proof {
            assert(matcher.spec_patterns() == keyword_bytes(keywords@));
        }
        Ok(r)
    }
}

} // verus!
