//! Titles: their reading from tab separated values and their binary form.

use vstd::prelude::*;
use vstd::std_specs::cmp::PartialEqSpecImpl;
use vstd::utf8::*;

use vstd::bytes::*;

use std::time::Duration;

use crate::bytes::append_bytes;

use crate::genre::{genre_name_bytes, Genre, Genres};
use crate::number::{atoi_u16, atoi_unsigned};
use crate::rating::{Rating, Ratings};
use crate::text::{lowercase_of, to_lowercase, utf8_to_string};
use crate::title_header::{
    field, pack_version_0, rating_field, runtime_field, votes_field, year_field, TitleHeader,
};
use crate::title_id::{is_title_id, title_id_input, title_id_number, TitleId, TitleIdError};
use crate::title_type::{title_type_name_bytes, TitleType};
use crate::tsv::{lemma_split_valid_utf8, split_bytes, split_seq};

verus! {

/// What reading a line of title data leads to: skip the line, or keep a movie or a series.
#[derive(Debug, Clone, Copy)]
pub enum TsvAction<T> {
    Skip,
    Movie(T),
    Series(T),
}

impl<T> TsvAction<T> {
    /// The kept title, if any.
    pub fn into_option(self) -> (r: Option<T>)
        ensures
            r == (match self {
                TsvAction::Skip => None,
                TsvAction::Movie(t) => Some(t),
                TsvAction::Series(t) => Some(t),
            }),
    {
        match self {
            TsvAction::Skip => None,
            TsvAction::Movie(t) => Some(t),
            TsvAction::Series(t) => Some(t),
        }
    }
}

/// Errors when reading titles.
#[derive(Debug, Clone, PartialEq, Eq)]
pub enum TitleError {
    /// A column or a part of the binary form is missing.
    Eof,
    /// The title ID does not parse.
    IdParsing(TitleIdError),
    /// The title type is unknown.
    TitleType,
    /// The adult marker is neither `0` nor `1`.
    Adult,
    /// The start year is not a number.
    StartYear,
    /// The end year is not a number.
    EndYear,
    /// The runtime is not a number.
    RuntimeMinutes,
    /// A genre is unknown.
    Genre,
}

/// The kinds of failure of reading a line of title data.
pub enum TsvFailure {
    Eof,
    Id,
    TitleType,
    Adult,
    StartYear,
    EndYear,
    RuntimeMinutes,
    Genre,
}

/// The content of a title: its header bits, ID bytes, primary title and original title.
pub ghost struct TitleModel {
    pub header: u128,
    pub id: Seq<u8>,
    pub primary: Seq<char>,
    pub original: Option<Seq<char>>,
}

/// What reading a line of title data gives; `BadYear` stands for a start year not after 1800,
/// which the header cannot hold.
pub ghost enum TsvParse {
    Skip,
    Movie(TitleModel),
    Series(TitleModel),
    Fail(TsvFailure),
    BadYear,
}

/// The title type whose data set name is `b`, if any.
pub open spec fn title_type_of(b: Seq<u8>) -> Option<TitleType> {
    if exists|t: TitleType| title_type_name_bytes(t) == b {
        Some(choose|t: TitleType| title_type_name_bytes(t) == b)
    } else {
        None
    }
}

/// The genre whose name is `b`, if any.
pub open spec fn genre_of(b: Seq<u8>) -> Option<Genre> {
    if exists|g: Genre| genre_name_bytes(g) == b {
        Some(choose|g: Genre| genre_name_bytes(g) == b)
    } else {
        None
    }
}

/// The text `\N` that marks a missing value.
pub open spec fn not_available() -> Seq<u8> {
    seq![92u8, 78u8]
}

/// An optional number column: `\N` for none, else what `atoi` reads; `None` when it reads
/// nothing.
pub open spec fn optional_u16(col: Seq<u8>) -> Option<Option<u16>> {
    if col == not_available() {
        Some(None)
    } else {
        match atoi_unsigned(col, 0xffff) {
            Some(v) => Some(Some(v as u16)),
            None => None,
        }
    }
}

/// The genre bits of a list of genre names; `None` when one of them is unknown.
pub open spec fn genres_bits_of(names: Seq<Seq<u8>>) -> Option<u32>
    decreases names.len(),
{
    if names.len() == 0 {
        Some(0)
    } else {
        match (genres_bits_of(names.drop_last()), genre_of(names.last())) {
            (Some(b), Some(g)) => Some(b | (1u32 << g.spec_value())),
            _ => None,
        }
    }
}

/// The genre bits of a genres column: none for `\N`, else those of its comma separated names.
pub open spec fn genres_column(col: Seq<u8>) -> Option<u32> {
    if col == not_available() {
        Some(0)
    } else {
        genres_bits_of(split_seq(col, 44u8))
    }
}

/// The columns of a line of title data.
pub open spec fn tsv_columns(line: Seq<u8>) -> Seq<Seq<u8>> {
    split_seq(line, 9u8)
}

/// What reading a line of title data gives, with the given ratings by title number.
pub open spec fn tsv_parse(line: Seq<u8>, ratings: Map<usize, Rating>) -> TsvParse {
    let cols = tsv_columns(line);
    if !is_title_id(cols[0]) {
        TsvParse::Fail(TsvFailure::Id)
    } else if cols.len() < 2 {
        TsvParse::Fail(TsvFailure::Eof)
    } else {
        match title_type_of(cols[1]) {
            None => TsvParse::Fail(TsvFailure::TitleType),
            Some(tt) => if !tt.spec_is_movie() && !tt.spec_is_series() {
                TsvParse::Skip
            } else if cols.len() < 5 {
                TsvParse::Fail(TsvFailure::Eof)
            } else if cols[4] != seq![48u8] && cols[4] != seq![49u8] {
                TsvParse::Fail(TsvFailure::Adult)
            } else if cols[4] == seq![49u8] {
                TsvParse::Skip
            } else if cols.len() < 6 {
                TsvParse::Fail(TsvFailure::Eof)
            } else {
                match optional_u16(cols[5]) {
                    None => TsvParse::Fail(TsvFailure::StartYear),
                    Some(start_year) => if cols.len() < 7 {
                        TsvParse::Fail(TsvFailure::Eof)
                    } else if optional_u16(cols[6]) is None {
                        TsvParse::Fail(TsvFailure::EndYear)
                    } else if cols.len() < 8 {
                        TsvParse::Fail(TsvFailure::Eof)
                    } else {
                        match optional_u16(cols[7]) {
                            None => TsvParse::Fail(TsvFailure::RuntimeMinutes),
                            Some(runtime) => if cols.len() < 9 {
                                TsvParse::Fail(TsvFailure::Eof)
                            } else {
                                match genres_column(cols[8]) {
                                    None => TsvParse::Fail(TsvFailure::Genre),
                                    Some(genres) => if start_year matches Some(y) && y <= 1800 {
                                        TsvParse::BadYear
                                    } else {
                                        let primary = decode_utf8(cols[2]);
                                        let original_text = decode_utf8(cols[3]);
                                        let original = if lowercase_of(original_text)
                                            == lowercase_of(primary) {
                                            None
                                        } else {
                                            Some(original_text)
                                        };
                                        let num = title_id_number_usize(cols[0]);
                                        let rating = if ratings.contains_key(num) {
                                            Some(ratings[num])
                                        } else {
                                            None
                                        };
                                        let model = TitleModel {
                                            header: pack_version_0(
                                                original is Some,
                                                false,
                                                runtime_field(runtime),
                                                year_field(start_year),
                                                rating_field(rating),
                                                votes_field(rating),
                                                tt.spec_value(),
                                                genres,
                                            ),
                                            id: cols[0],
                                            primary,
                                            original,
                                        };
                                        if tt.spec_is_movie() {
                                            TsvParse::Movie(model)
                                        } else {
                                            TsvParse::Series(model)
                                        }
                                    },
                                }
                            },
                        }
                    },
                }
            }
        }
    }
}

/// The number of a title ID, as a `usize`.
pub open spec fn title_id_number_usize(b: Seq<u8>) -> usize {
    crate::title_id::title_id_number(b) as usize
}

/// The lines that `Title::from_tsv` takes: valid UTF-8 whose title ID can be parsed, whose
/// start year, when the line would otherwise make a title, is after 1800, and whose title has
/// fewer than 2^23 votes in `ratings`, which the header can hold.
pub open spec fn tsv_line_input(line: Seq<u8>, ratings: Map<usize, Rating>) -> bool {
    &&& valid_utf8(line)
    &&& title_id_input(tsv_columns(line)[0])
    &&& !(tsv_parse(line, ratings) is BadYear)
    &&& is_title_id(tsv_columns(line)[0]) && ratings.contains_key(
        title_id_number_usize(tsv_columns(line)[0]),
    ) ==> ratings[title_id_number_usize(
        tsv_columns(line)[0],
    )].spec_votes() < 0x800000
}

/// Primary and original titles of a movie or series and its information such as runtime and
/// rating.
#[derive(Debug)]
pub struct Title {
    header: TitleHeader,
    title_id: TitleId,
    primary_title: String,
    original_title: Option<String>,
}

impl Title {
    /// The ID is well formed, the header records a known title type, and the header records an
    /// original title exactly when there is one.
    pub closed spec fn wf(self) -> bool {
        &&& self.title_id.wf()
        &&& self.header.spec_title_type_value() <= 12
        &&& self.header.spec_has_original_title() == (self.original_title is Some)
    }

    /// The content of the title.
    pub closed spec fn model(self) -> TitleModel {
        TitleModel {
            header: self.header.spec_bits(),
            id: self.title_id.spec_bytes(),
            primary: self.primary_title@,
            original: match self.original_title {
                Some(s) => Some(s@),
                None => None,
            },
        }
    }

    /// The header of the title.
    pub closed spec fn spec_header(self) -> TitleHeader {
        self.header
    }

    /// The ID of the title.
    pub closed spec fn spec_title_id(self) -> TitleId {
        self.title_id
    }

    /// Returns the ID of the title.
    pub fn title_id(&self) -> (r: &TitleId)
        ensures
            *r == self.spec_title_id(),
    {
        &self.title_id
    }

    /// Returns the type of the title.
    pub fn title_type(&self) -> (r: TitleType)
        requires
            self.wf(),
        ensures
            r.spec_value() == self.spec_header().spec_title_type_value(),
    {
        self.header.title_type()
    }

    /// Returns the primary title.
    pub fn primary_title(&self) -> (r: &str)
        ensures
            r@ == self.model().primary,
    {
        self.primary_title.as_str()
    }

    /// Returns the original title, if it differs from the primary title.
    pub fn original_title(&self) -> (r: Option<&str>)
        ensures
            match r {
                Some(s) => self.model().original == Some(s@),
                None => self.model().original is None,
            },
    {
        match &self.original_title {
            Some(s) => Some(s.as_str()),
            None => None,
        }
    }

    /// Returns whether the title is for adults.
    pub fn is_adult(&self) -> (r: bool)
        ensures
            r == self.spec_header().spec_is_adult(),
    {
        self.header.is_adult()
    }

    /// Returns the start year of the title.
    pub fn start_year(&self) -> (r: Option<u16>)
        ensures
            r == self.spec_header().spec_start_year(),
    {
        self.header.start_year()
    }

    /// Returns the runtime of the title in minutes.
    pub fn runtime_minutes(&self) -> (r: Option<u16>)
        ensures
            r == self.spec_header().spec_runtime_minutes(),
    {
        self.header.runtime_minutes()
    }

    /// Returns the runtime of the title: its minutes times 60 seconds.
    pub fn runtime(&self) -> (r: Option<Duration>)
        ensures
            r == match self.spec_header().spec_runtime_minutes() {
                Some(minutes) => Some(duration_of_secs((minutes as u64 * 60) as u64)),
                None => None,
            },
    {
        match self.header.runtime_minutes() {
            Some(minutes) => Some(duration_from_secs(minutes as u64 * 60)),
            None => None,
        }
    }

    /// Returns the set of genres of the title.
    pub fn genres(&self) -> (r: Genres)
        ensures
            r.spec_bits() == self.spec_header().spec_genres_bits(),
    {
        self.header.genres()
    }

    /// Returns the rating of the title.
    pub fn rating(&self) -> (r: Option<Rating>)
        ensures
            r matches Some(rt) ==> self.spec_header().spec_rating_parts() == Some(
                (rt.spec_rating(), rt.spec_votes()),
            ),
            r is None <==> self.spec_header().spec_rating_parts() is None,
    {
        self.header.rating()
    }
}

impl Title {
    /// The content of a title holds the bits of its header and the bytes of its ID; the
    /// number and text of the ID are those that its bytes write.
    pub proof fn lemma_model(self)
        requires
            self.wf(),
        ensures
            self.model().header == self.spec_header().spec_bits(),
            self.model().id == self.spec_title_id().spec_bytes(),
            is_title_id(self.model().id),
            self.spec_title_id().spec_num() == title_id_number(self.model().id),
            self.spec_title_id().spec_text() == decode_utf8(self.model().id),
    {
        self.title_id.lemma_wf();
    }
}

/// The rating that `ratings` holds for the title of a line of title data, if any.
pub open spec fn line_rating(line: Seq<u8>, ratings: Map<usize, Rating>) -> Option<Rating> {
    let num = title_id_number_usize(tsv_columns(line)[0]);
    if ratings.contains_key(num) {
        Some(ratings[num])
    } else {
        None
    }
}

/// What a title read from a line of title data tells: the line's ID and title type, never
/// adult, the line's runtime (a runtime of 0 reads as unknown) and genres; and, where the start
/// year is before 2312 and the rating below 128, the line's start year and its rating in
/// `ratings` (none without votes).
pub proof fn lemma_parsed_title(line: Seq<u8>, ratings: Map<usize, Rating>, t: Title)
    requires
        tsv_line_input(line, ratings),
        t.wf(),
        (tsv_parse(line, ratings) matches TsvParse::Movie(m) && t.model() == m) || (tsv_parse(
            line,
            ratings,
        ) matches TsvParse::Series(m) && t.model() == m),
    ensures
        t.spec_title_id().spec_bytes() == tsv_columns(line)[0],
        t.spec_title_id().spec_num() == title_id_number(tsv_columns(line)[0]),
        title_type_of(tsv_columns(line)[1]) matches Some(tt) && t.spec_header().spec_title_type_value()
            == tt.spec_value() as u128,
        !t.spec_header().spec_is_adult(),
        optional_u16(tsv_columns(line)[7]) matches Some(rt) && t.spec_header().spec_runtime_minutes()
            == (if rt == Some(0u16) {
            None
        } else {
            rt
        }),
        genres_column(tsv_columns(line)[8]) == Some(t.spec_header().spec_genres_bits()),
        optional_u16(tsv_columns(line)[5]) matches Some(y) && (
        crate::title_header::fits_version_0(y, line_rating(line, ratings)) ==> {
            &&& t.spec_header().spec_start_year() == y
            &&& t.spec_header().spec_rating_parts() == match line_rating(line, ratings) {
                Some(r) => if r.spec_votes() == 0 {
                    None
                } else {
                    Some((r.spec_rating(), r.spec_votes()))
                },
                None => None,
            }
        }),
{
    t.lemma_model();
    let cols = tsv_columns(line);
    let tt = title_type_of(cols[1])->0;
    let start_year = optional_u16(cols[5])->0;
    let runtime = optional_u16(cols[7])->0;
    let genres_bits = genres_column(cols[8])->0;
    let rating = line_rating(line, ratings);
    let genres = Genres::spec_from_bits(genres_bits);
    genres.lemma_from_bits(genres_bits);
    let primary = decode_utf8(cols[2]);
    let original_text = decode_utf8(cols[3]);
    let has_original = lowercase_of(original_text) != lowercase_of(primary);
    assert(t.spec_header().spec_bits() == pack_version_0(
        has_original,
        false,
        runtime_field(runtime),
        year_field(start_year),
        rating_field(rating),
        votes_field(rating),
        tt.spec_value(),
        genres.spec_bits(),
    ));
    crate::title_header::lemma_header_type_value(
        t.spec_header(),
        has_original,
        false,
        runtime,
        start_year,
        rating,
        tt,
        genres,
    );
    if crate::title_header::fits_version_0(start_year, rating) {
        crate::title_header::lemma_header_roundtrip(
            t.spec_header(),
            has_original,
            false,
            runtime,
            start_year,
            rating,
            tt,
            genres,
        );
    }
}

/// The `Duration` that `Duration::from_secs` makes of a number of seconds.
pub uninterp spec fn duration_of_secs(secs: u64) -> Duration;

/// Makes a `Duration` of the given number of seconds with `Duration::from_secs`, which depends
/// on the number alone.
#[verifier::external_body]
fn duration_from_secs(secs: u64) -> (r: Duration)
    ensures
        r == duration_of_secs(secs),
{
    Duration::from_secs(secs)
}

impl PartialEq for Title {
    fn eq(&self, other: &Self) -> (r: bool) {
        self.title_id.as_usize() == other.title_id.as_usize()
    }
}

impl PartialEqSpecImpl for Title {
    open spec fn obeys_eq_spec() -> bool {
        true
    }

    open spec fn eq_spec(&self, other: &Title) -> bool {
        self.spec_title_id().spec_num() == other.spec_title_id().spec_num()
    }
}

impl Eq for Title {

}


/// Whether a column is `\N`.
fn is_not_available(col: &[u8]) -> (r: bool)
    ensures
        r == (col@ == not_available()),
{
    if col.len() == 2 && col[0] == 92u8 && col[1] == 78u8 {
        assert(col@ =~= not_available());
        true
    } else {
        false
    }
}

/// Whether a column holds exactly the byte `b`.
fn is_single_byte(col: &[u8], b: u8) -> (r: bool)
    ensures
        r == (col@ == seq![b]),
{
    if col.len() == 1 && col[0] == b {
        assert(col@ =~= seq![b]);
        true
    } else {
        false
    }
}

/// Reads an optional number column: `\N` for none, else what `atoi` reads.
fn parse_optional_u16(col: &[u8]) -> (r: Option<Option<u16>>)
    ensures
        r == optional_u16(col@),
{
    if is_not_available(col) {
        Some(None)
    } else {
        match atoi_u16(col) {
            Some(v) => Some(Some(v)),
            None => None,
        }
    }
}

/// If one name of a list is unknown, the list has no genre bits.
proof fn lemma_genres_bits_none(names: Seq<Seq<u8>>, k: int)
    requires
        0 <= k < names.len(),
        genre_of(names[k]) is None,
    ensures
        genres_bits_of(names) is None,
    decreases names.len(),
{
    if k < names.len() - 1 {
        lemma_genres_bits_none(names.drop_last(), k);
    }
}

/// The genre that `Genre::from_name` gives is the one `genre_of` names.
proof fn lemma_genre_of(b: Seq<u8>, r: Option<Genre>)
    requires
        forall|g: Genre| #[trigger] genre_name_bytes(g) == b <==> r == Some(g),
    ensures
        genre_of(b) == r,
{
    if let Some(g) = r {
        assert(genre_name_bytes(g) == b);
    }
}

/// The title type that `TitleType::from_name` gives is the one `title_type_of` names.
proof fn lemma_title_type_of(b: Seq<u8>, r: Option<TitleType>)
    requires
        forall|t: TitleType| #[trigger] title_type_name_bytes(t) == b <==> r == Some(t),
    ensures
        title_type_of(b) == r,
{
    if let Some(t) = r {
        assert(title_type_name_bytes(t) == b);
    }
}

/// Reads a genres column: `\N` for no genres, else comma separated genre names.
fn parse_genres(col: &[u8]) -> (r: Option<Genres>)
    ensures
        match genres_column(col@) {
            Some(bits) => r matches Some(g) && g.spec_bits() == bits,
            None => r is None,
        },
{
    let na = is_not_available(col);
    if na {
        return Some(Genres::new());
    }
    assert(col@ != not_available());
    let names = split_bytes(col, 44u8);
    let ghost nv = names@.map_values(|v: Vec<u8>| v@);
    let mut genres = Genres::new();
    let mut i: usize = 0;
    while i < names.len()
        invariant
            i <= names@.len(),
            nv == names@.map_values(|v: Vec<u8>| v@),
            nv == split_seq(col@, 44u8),
            col@ != not_available(),
            genres_bits_of(nv.take(i as int)) == Some(genres.spec_bits()),
        decreases names@.len() - i,
    {
        assert(nv[i as int] == names@[i as int]@);
        let found = Genre::from_name(names[i].as_slice());
        proof {
            lemma_genre_of(nv[i as int], found);
            assert(nv.take(i + 1).drop_last() =~= nv.take(i as int));
        }
        match found {
            Some(g) => {
                genres.add(g);
            },
            None => {
                proof {
                    lemma_genres_bits_none(nv, i as int);

                }
                return None;
            },
        }
        i += 1;
    }
    assert(nv.take(names@.len() as int) =~= nv);
    Some(genres)
}

impl Title {
    /// Reads a title from a line of tab separated values (ID, type, primary title, original
    /// title, adult marker, start year, end year, runtime in minutes, genres), taking its
    /// rating from `ratings`. Lines of titles that are neither movies nor series, and lines of
    /// adult titles, are skipped.
    pub fn from_tsv(line: &[u8], ratings: &Ratings) -> (r: Result<TsvAction<Title>, TitleError>)
        requires
            tsv_line_input(line@, ratings.view()),
        ensures
            match (r, tsv_parse(line@, ratings.view())) {
                (Ok(TsvAction::Skip), TsvParse::Skip) => true,
                (Ok(TsvAction::Movie(t)), TsvParse::Movie(m)) => t.wf() && t.model() == m,
                (Ok(TsvAction::Series(t)), TsvParse::Series(m)) => t.wf() && t.model() == m,
                (Err(TitleError::IdParsing(e)), TsvParse::Fail(TsvFailure::Id)) => TitleId::try_from_error(
                    tsv_columns(line@)[0],
                    e,
                ),
                (Err(TitleError::Eof), TsvParse::Fail(TsvFailure::Eof)) => true,
                (Err(TitleError::TitleType), TsvParse::Fail(TsvFailure::TitleType)) => true,
                (Err(TitleError::Adult), TsvParse::Fail(TsvFailure::Adult)) => true,
                (Err(TitleError::StartYear), TsvParse::Fail(TsvFailure::StartYear)) => true,
                (Err(TitleError::EndYear), TsvParse::Fail(TsvFailure::EndYear)) => true,
                (Err(TitleError::RuntimeMinutes), TsvParse::Fail(TsvFailure::RuntimeMinutes)) => true,
                (Err(TitleError::Genre), TsvParse::Fail(TsvFailure::Genre)) => true,
                _ => false,
            },
    {
        let cols = split_bytes(line, 9u8);
        let ghost cv = cols@.map_values(|v: Vec<u8>| v@);
        proof {
            lemma_split_valid_utf8(line@, 9u8);
            assert(cv == tsv_columns(line@));
            assert(cv[0] == cols@[0]@);
        }
        let title_id = match TitleId::try_from(cols[0].as_slice()) {
            Ok(id) => id,
            Err(e) => {
                return Err(TitleError::IdParsing(e));
            },
        };
        if cols.len() < 2 {
            return Err(TitleError::Eof);
        }
        assert(cv[1] == cols@[1]@);
        let found_type = TitleType::from_name(cols[1].as_slice());
        proof {
            lemma_title_type_of(cv[1], found_type);
        }
        let title_type = match found_type {
            Some(t) => t,
            None => {
                return Err(TitleError::TitleType);
            },
        };
        let is_movie = title_type.is_movie();
        let is_series = title_type.is_series();
        if !is_movie && !is_series {
            return Ok(TsvAction::Skip);
        }
        if cols.len() < 5 {
            return Err(TitleError::Eof);
        }
        assert(cv[2] == cols@[2]@);
        assert(cv[3] == cols@[3]@);
        assert(cv[4] == cols@[4]@);
        let primary_title = match utf8_to_string(cols[2].as_slice()) {
            Some(s) => s,
            None => {
                proof {
                    assert(valid_utf8(cv[2]));
                }
                return Err(TitleError::Eof);
            },
        };
        let original_text = match utf8_to_string(cols[3].as_slice()) {
            Some(s) => s,
            None => {
                proof {
                    assert(valid_utf8(cv[3]));
                }
                return Err(TitleError::Eof);
            },
        };
        let lower_original = to_lowercase(original_text.as_str());
        let lower_primary = to_lowercase(primary_title.as_str());
        let original_title = if crate::text::str_eq(lower_original.as_str(), lower_primary.as_str()) {
            None
        } else {
            Some(original_text)
        };
        let is_adult = if is_single_byte(cols[4].as_slice(), 48u8) {
            false
        } else if is_single_byte(cols[4].as_slice(), 49u8) {
            true
        } else {
            return Err(TitleError::Adult);
        };
        if is_adult {
            return Ok(TsvAction::Skip);
        }
        if cols.len() < 6 {
            return Err(TitleError::Eof);
        }
        assert(cv[5] == cols@[5]@);
        let start_year = match parse_optional_u16(cols[5].as_slice()) {
            Some(y) => y,
            None => {
                return Err(TitleError::StartYear);
            },
        };
        if cols.len() < 7 {
            return Err(TitleError::Eof);
        }
        assert(cv[6] == cols@[6]@);
        if parse_optional_u16(cols[6].as_slice()).is_none() {
            return Err(TitleError::EndYear);
        }
        if cols.len() < 8 {
            return Err(TitleError::Eof);
        }
        assert(cv[7] == cols@[7]@);
        let runtime_minutes = match parse_optional_u16(cols[7].as_slice()) {
            Some(r) => r,
            None => {
                return Err(TitleError::RuntimeMinutes);
            },
        };
        if cols.len() < 9 {
            return Err(TitleError::Eof);
        }
        assert(cv[8] == cols@[8]@);
        let genres = match parse_genres(cols[8].as_slice()) {
            Some(g) => g,
            None => {
                return Err(TitleError::Genre);
            },
        };
        let rating = ratings.get(title_id.as_usize());
        let header = TitleHeader::new_version_0(
            original_title.is_some(),
            is_adult,
            runtime_minutes,
            start_year,
            rating,
            title_type,
            genres,
        );
        proof {
            assert(rating matches Some(rt) ==> rt.spec_votes() < 0x800000);
            crate::title_header::lemma_header_type_value(header, original_title is Some, is_adult, runtime_minutes, start_year, rating, title_type, genres);
        }
        let title = Title { header, title_id, primary_title, original_title };
        if is_movie {
            Ok(TsvAction::Movie(title))
        } else {
            Ok(TsvAction::Series(title))
        }
    }
}


impl Title {
    /// Returns whether reading the line of title data stops at a start year not after 1800.
    fn tsv_bad_year(line: &[u8], cols: &Vec<Vec<u8>>, ratings: &Ratings) -> (r: bool)
        requires
            valid_utf8(line@),
            cols@.map_values(|v: Vec<u8>| v@) == tsv_columns(line@),
            title_id_input(tsv_columns(line@)[0]),
        ensures
            r == (tsv_parse(line@, ratings.view()) is BadYear),
    {
        let ghost cv = cols@.map_values(|v: Vec<u8>| v@);
        proof {
            lemma_split_valid_utf8(line@, 9u8);
            assert(cv == tsv_columns(line@));
            assert(cv[0] == cols@[0]@);
        }
        if TitleId::try_from(cols[0].as_slice()).is_err() {
            return false;
        }
        if cols.len() < 2 {
            return false;
        }
        assert(cv[1] == cols@[1]@);
        let found_type = TitleType::from_name(cols[1].as_slice());
        proof {
            lemma_title_type_of(cv[1], found_type);
        }
        let title_type = match found_type {
            Some(t) => t,
            None => {
                return false;
            },
        };
        if !title_type.is_movie() && !title_type.is_series() {
            return false;
        }
        if cols.len() < 5 {
            return false;
        }
        assert(cv[4] == cols@[4]@);
        let zero = is_single_byte(cols[4].as_slice(), 48u8);
        let one = is_single_byte(cols[4].as_slice(), 49u8);
        if !zero && !one {
            return false;
        }
        if one {
            return false;
        }
        if cols.len() < 6 {
            return false;
        }
        assert(cv[5] == cols@[5]@);
        let start_year = match parse_optional_u16(cols[5].as_slice()) {
            Some(y) => y,
            None => {
                return false;
            },
        };
        if cols.len() < 7 {
            return false;
        }
        assert(cv[6] == cols@[6]@);
        if parse_optional_u16(cols[6].as_slice()).is_none() {
            return false;
        }
        if cols.len() < 8 {
            return false;
        }
        assert(cv[7] == cols@[7]@);
        if parse_optional_u16(cols[7].as_slice()).is_none() {
            return false;
        }
        if cols.len() < 9 {
            return false;
        }
        assert(cv[8] == cols@[8]@);
        if parse_genres(cols[8].as_slice()).is_none() {
            return false;
        }
        match start_year {
            Some(y) => y <= 1800,
            None => false,
        }
    }

    /// Returns whether `Title::from_tsv` takes the line with these ratings: it is valid UTF-8,
    /// its title ID can be parsed, it does not stop at a start year not after 1800, and its
    /// title has fewer than 2^23 votes.
    pub fn tsv_line_ok(line: &[u8], ratings: &Ratings) -> (r: bool)
        ensures
            r == tsv_line_input(line@, ratings.view()),
    {
        if utf8_to_string(line).is_none() {
            return false;
        }
        let cols = split_bytes(line, 9u8);
        let ghost cv = cols@.map_values(|v: Vec<u8>| v@);
        proof {
            lemma_split_valid_utf8(line@, 9u8);
            assert(cv == tsv_columns(line@));
            assert(cv[0] == cols@[0]@);
        }
        if !crate::title_id::title_id_input_ok(cols[0].as_slice()) {
            return false;
        }
        match TitleId::try_from(cols[0].as_slice()) {
            Ok(id) => match ratings.get(id.as_usize()) {
                Some(rt) => {
                    if rt.votes() >= 0x800000 {
                        return false;
                    }
                },
                None => {},
            },
            Err(_) => {},
        }
        !Title::tsv_bad_year(line, &cols, ratings)
    }
}

/// The binary form of a title: the 16 header bytes, the length of the ID in one byte, the ID,
/// the length of the primary title in two bytes, the primary title and, if there is an
/// original title, its length in two bytes and the original title. Lengths are little endian.
pub open spec fn title_binary(m: TitleModel) -> Seq<u8> {
    let primary = encode_utf8(m.primary);
    spec_u128_to_le_bytes(m.header) + seq![m.id.len() as u8] + m.id + spec_u16_to_le_bytes(
        primary.len() as u16,
    ) + primary + match m.original {
        Some(o) => spec_u16_to_le_bytes(encode_utf8(o).len() as u16) + encode_utf8(o),
        None => Seq::empty(),
    }
}

/// The header that the binary form `s` starts with.
pub open spec fn binary_header(s: Seq<u8>) -> u128 {
    spec_u128_from_le_bytes(s.take(16))
}

/// The end of the ID in the binary form `s`.
pub open spec fn binary_id_end(s: Seq<u8>) -> int {
    17 + s[16] as int
}

/// The ID in the binary form `s`.
pub open spec fn binary_id(s: Seq<u8>) -> Seq<u8> {
    s.subrange(17, binary_id_end(s))
}

/// The end of the text whose two length bytes start at `p` in `s`.
pub open spec fn binary_text_end(s: Seq<u8>, p: int) -> int {
    p + 2 + spec_u16_from_le_bytes(s.subrange(p, p + 2)) as int
}

/// Whether the text whose two length bytes start at `p` lies within `s` and is valid UTF-8.
pub open spec fn binary_text_input(s: Seq<u8>, p: int) -> bool {
    &&& p + 2 <= s.len()
    &&& binary_text_end(s, p) <= s.len()
    &&& valid_utf8(s.subrange(p + 2, binary_text_end(s, p)))
}

/// Whether the header of the binary form `s` records an original title.
pub open spec fn binary_has_original(s: Seq<u8>) -> bool {
    field(binary_header(s), 6, 1) == 1
}

/// The binary forms that `Title::from_binary` takes: short ones, which are an error, and those
/// whose ID lies within them and can be parsed and, when it is a title ID, whose texts lie
/// within them and are valid UTF-8 and whose header records a known title type.
pub open spec fn binary_input(s: Seq<u8>) -> bool {
    s.len() >= 23 ==> {
        &&& binary_id_end(s) <= s.len()
        &&& title_id_input(binary_id(s))
        &&& is_title_id(binary_id(s)) ==> {
            &&& binary_text_input(s, binary_id_end(s))
            &&& field(binary_header(s), 63, 5) <= 12
            &&& binary_has_original(s) ==> binary_text_input(
                s,
                binary_text_end(s, binary_id_end(s)),
            )
        }
    }
}

/// The end of the title whose binary form starts `s`.
pub open spec fn binary_end(s: Seq<u8>) -> int {
    let p = binary_text_end(s, binary_id_end(s));
    if binary_has_original(s) {
        binary_text_end(s, p)
    } else {
        p
    }
}

/// The content of the title whose binary form starts `s`.
pub open spec fn binary_model(s: Seq<u8>) -> TitleModel {
    let p = binary_id_end(s);
    let q = binary_text_end(s, p);
    TitleModel {
        header: binary_header(s),
        id: binary_id(s),
        primary: decode_utf8(s.subrange(p + 2, q)),
        original: if binary_has_original(s) {
            Some(decode_utf8(s.subrange(q + 2, binary_text_end(s, q))))
        } else {
            None
        },
    }
}

/// Whether a title's content fits its binary form: an ID of at most 255 bytes and titles of at
/// most 65535 bytes each.
pub open spec fn fits_binary(m: TitleModel) -> bool {
    &&& m.id.len() <= 255
    &&& encode_utf8(m.primary).len() <= 0xffff
    &&& m.original matches Some(o) ==> encode_utf8(o).len() <= 0xffff
}

/// Reads the text whose two length bytes start at `p` in `source`.
fn read_text(source: &[u8], p: usize) -> (r: (String, usize))
    requires
        binary_text_input(source@, p as int),
    ensures
        r.0@ == decode_utf8(source@.subrange(p + 2, binary_text_end(source@, p as int))),
        r.1 == binary_text_end(source@, p as int),
{
    let n = source.len();
    assert(n == source@.len());
    let len_bytes = vstd::slice::slice_subrange(source, p, p + 2);
    let len = u16_from_le_bytes(len_bytes) as usize;
    let end = p + 2 + len;
    let text = vstd::slice::slice_subrange(source, p + 2, end);
    match utf8_to_string(text) {
        Some(s) => (s, end),
        None => {
            proof {
                assert(false);
            }
            (String::new(), end)
        },
    }
}

impl Title {
    /// Returns the binary form of the title.
    pub fn to_binary(&self) -> (r: Vec<u8>)
        ensures
            r@ == title_binary(self.model()),
    {
        let mut out = self.header.to_le_bytes();
        let id = self.title_id.as_bytes();
        out.push(id.len() as u8);
        append_bytes(&mut out, id);
        let primary = self.primary_title.as_str().as_bytes();
        let primary_len = u16_to_le_bytes(primary.len() as u16);
        append_bytes(&mut out, primary_len.as_slice());
        append_bytes(&mut out, primary);
        match &self.original_title {
            Some(original) => {
                let original = original.as_str().as_bytes();
                let original_len = u16_to_le_bytes(original.len() as u16);
                append_bytes(&mut out, original_len.as_slice());
                append_bytes(&mut out, original);
            },
            None => {},
        }
        proof {
            let m = self.model();
            match m.original {
                Some(o) => {},
                None => {
                    assert(out@ =~= title_binary(m));
                },
            }
            assert(out@ =~= title_binary(m));
        }
        out
    }

    /// Reads a title from the start of its binary form, and returns it with the number of bytes
    /// it takes.
    pub fn from_binary(source: &[u8]) -> (r: Result<(Title, usize), TitleError>)
        requires
            binary_input(source@),
        ensures
            source@.len() < 23 ==> r == Err::<(Title, usize), TitleError>(TitleError::Eof),
            source@.len() >= 23 && !is_title_id(binary_id(source@)) ==> (r matches Err(
                TitleError::IdParsing(e),
            ) && TitleId::try_from_error(binary_id(source@), e)),
            source@.len() >= 23 && is_title_id(binary_id(source@)) ==> (r matches Ok((t, n)) && t.wf()
                && t.model() == binary_model(source@) && n == binary_end(source@)),
    {
        if source.len() < 23 {
            return Err(TitleError::Eof);
        }
        let header = TitleHeader::from_le_bytes(vstd::slice::slice_subrange(source, 0, 16));
        proof {
            assert(source@.subrange(0, 16) =~= source@.take(16));
        }
        let id_len = source[16] as usize;
        let id_bytes = vstd::slice::slice_subrange(source, 17, 17 + id_len);
        let title_id = match TitleId::try_from(id_bytes) {
            Ok(id) => id,
            Err(e) => {
                return Err(TitleError::IdParsing(e));
            },
        };
        let p = 17 + id_len;
        let (primary_title, q) = read_text(source, p);
        let (original_title, end) = if header.has_original_title() {
            let (o, e) = read_text(source, q);
            (Some(o), e)
        } else {
            (None, q)
        };
        let title = Title { header, title_id, primary_title, original_title };
        Ok((title, end))
    }
}


/// Returns whether the text whose two length bytes start at `p` lies within `s` and is valid
/// UTF-8, and where it ends.
fn text_input_ok(s: &[u8], p: usize) -> (r: (bool, usize))
    requires
        p <= s@.len(),
    ensures
        r.0 == binary_text_input(s@, p as int),
        r.0 ==> r.1 == binary_text_end(s@, p as int),
{
    if s.len() - p < 2 {
        return (false, 0);
    }
    let len = u16_from_le_bytes(vstd::slice::slice_subrange(s, p, p + 2)) as usize;
    if s.len() - p - 2 < len {
        return (false, 0);
    }
    let end = p + 2 + len;
    let ok = utf8_to_string(vstd::slice::slice_subrange(s, p + 2, end)).is_some();
    (ok, end)
}

impl Title {
    /// Returns whether `Title::from_binary` takes the binary form `s`.
    pub fn binary_input_ok(s: &[u8]) -> (r: bool)
        ensures
            r == binary_input(s@),
    {
        if s.len() < 23 {
            return true;
        }
        let id_end = 17 + s[16] as usize;
        if id_end > s.len() {
            return false;
        }
        let id = vstd::slice::slice_subrange(s, 17, id_end);
        if !crate::title_id::title_id_input_ok(id) {
            return false;
        }
        if TitleId::try_from(id).is_err() {
            return true;
        }
        let (primary_ok, primary_end) = text_input_ok(s, id_end);
        if !primary_ok {
            return false;
        }
        let header = TitleHeader::from_le_bytes(vstd::slice::slice_subrange(s, 0, 16));
        proof {
            assert(s@.subrange(0, 16) =~= s@.take(16));
        }
        if header.title_type_value() > 12 {
            return false;
        }
        if header.has_original_title() {
            let (original_ok, _) = text_input_ok(s, primary_end);
            original_ok
        } else {
            true
        }
    }

    /// Returns whether every binary form that reading all of `data` comes to is one that
    /// `Title::from_binary` takes.
    pub fn binary_all_ok(data: &[u8]) -> (r: bool)
        ensures
            r == binary_all_input(data@),
    {
        let mut pos: usize = 0;
        proof {
            assert(data@.skip(0) =~= data@);
        }
        while pos < data.len()
            invariant
                pos <= data@.len(),
                binary_all_input(data@.skip(pos as int)) == binary_all_input(data@),
            decreases data@.len() - pos,
        {
            let rest = vstd::slice::slice_subrange(data, pos, data.len());
            let ghost rs = data@.skip(pos as int);
            assert(rest@ =~= rs);
            if !Title::binary_input_ok(rest) {
                return false;
            }
            if rest.len() < 23 {
                return true;
            }
            let id_end = 17 + rest[16] as usize;
            let id = vstd::slice::slice_subrange(rest, 17, id_end);
            if TitleId::try_from(id).is_err() {
                return true;
            }
            let (_, primary_end) = text_input_ok(rest, id_end);
            let header = TitleHeader::from_le_bytes(vstd::slice::slice_subrange(rest, 0, 16));
            proof {
                assert(rest@.subrange(0, 16) =~= rest@.take(16));
            }
            let end = if header.has_original_title() {
                let (_, original_end) = text_input_ok(rest, primary_end);
                original_end
            } else {
                primary_end
            };
            assert(end == binary_end(rs));
            proof {
                assert(binary_text_end(rs, binary_id_end(rs)) >= binary_id_end(rs) + 2);
                assert(rs.skip(end as int) =~= data@.skip(pos + end));
            }
            pos = pos + end;
        }
        proof {
            assert(data@.skip(pos as int).len() == 0);
        }
        true
    }
}

/// What a read gives back of a write: the binary form of a title, followed by any bytes, reads
/// back as the same title content and ends where the title's binary form ends. This holds
/// when the title fits its binary form and the bytes read are at least 23.
pub proof fn lemma_binary_roundtrip(t: Title, rest: Seq<u8>)
    requires
        t.wf(),
        fits_binary(t.model()),
        title_binary(t.model()).len() + rest.len() >= 23,
    ensures
        ({
            let s = title_binary(t.model()) + rest;
            &&& binary_input(s)
            &&& is_title_id(binary_id(s))
            &&& binary_model(s) == t.model()
            &&& binary_end(s) == title_binary(t.model()).len()
        }),
{
    let m = t.model();
    let s = title_binary(m) + rest;
    let hb = spec_u128_to_le_bytes(m.header);
    let pb = encode_utf8(m.primary);
    let plen = spec_u16_to_le_bytes(pb.len() as u16);
    lemma_auto_spec_u128_to_from_le_bytes();
    lemma_auto_spec_u16_to_from_le_bytes();
    t.title_id.lemma_wf();
    encode_utf8_valid_utf8(m.primary);
    encode_utf8_decode_utf8(m.primary);
    let idl = m.id.len() as int;
    assert(s.take(16) =~= hb);
    assert(s[16] == m.id.len() as u8);
    assert(binary_id_end(s) == 17 + idl);
    assert(binary_id(s) =~= m.id);
    let p = 17 + idl;
    assert(s.subrange(p, p + 2) =~= plen);
    assert(binary_text_end(s, p) == p + 2 + pb.len());
    assert(s.subrange(p + 2, p + 2 + pb.len()) =~= pb);
    let q = p + 2 + pb.len();
    assert(binary_has_original(s) == (m.original is Some));
    match m.original {
        Some(o) => {
            let ob = encode_utf8(o);
            encode_utf8_valid_utf8(o);
            encode_utf8_decode_utf8(o);
            assert(s.subrange(q, q + 2) =~= spec_u16_to_le_bytes(ob.len() as u16));
            assert(s.subrange(q + 2, q + 2 + ob.len()) =~= ob);
            assert(binary_model(s) =~~= m);
        },
        None => {
            assert(binary_model(s) =~~= m);
        },
    }
}


/// What reading up to `k` titles from the binary forms in `s` gives.
pub ghost enum BinaryStream {
    /// The contents of the titles read and the number of bytes they take.
    Done(Seq<TitleModel>, nat),
    /// A title's binary form is shorter than 23 bytes.
    Eof,
    /// A title's ID does not parse; the ID is given.
    Id(Seq<u8>),
}

/// What reading up to `k` titles from the binary forms in `s` gives; reading stops at the end
/// of `s`.
pub open spec fn binary_stream(s: Seq<u8>, k: nat) -> BinaryStream
    decreases k,
{
    if k == 0 || s.len() == 0 {
        BinaryStream::Done(Seq::empty(), 0)
    } else if s.len() < 23 {
        BinaryStream::Eof
    } else if !is_title_id(binary_id(s)) {
        BinaryStream::Id(binary_id(s))
    } else if binary_end(s) <= 0 || binary_end(s) > s.len() {
        BinaryStream::Done(Seq::empty(), 0)
    } else {
        match binary_stream(s.skip(binary_end(s)), (k - 1) as nat) {
            BinaryStream::Done(ms, n) => BinaryStream::Done(
                seq![binary_model(s)] + ms,
                (binary_end(s) + n) as nat,
            ),
            other => other,
        }
    }
}

/// Whether `Title::read_titles` can read up to `k` titles from `s`: each binary form that it
/// comes to is one that `Title::from_binary` takes.
pub open spec fn binary_stream_input(s: Seq<u8>, k: nat) -> bool
    decreases k,
{
    k == 0 || s.len() == 0 || (binary_input(s) && (s.len() >= 23 && is_title_id(binary_id(s))
        && 0 < binary_end(s) <= s.len() ==> binary_stream_input(
        s.skip(binary_end(s)),
        (k - 1) as nat,
    )))
}

impl Title {
    /// Reads up to `max` titles from the binary forms at the start of `source`, and returns
    /// them with the number of bytes they take. Reading stops at the end of `source`.
    pub fn read_titles(source: &[u8], max: usize) -> (r: Result<(Vec<Title>, usize), TitleError>)
        requires
            binary_stream_input(source@, max as nat),
        ensures
            match binary_stream(source@, max as nat) {
                BinaryStream::Done(ms, n) => r matches Ok((ts, used)) && used == n
                    && ts@.len() == ms.len() && forall|i: int|
                    0 <= i < ms.len() ==> #[trigger] ts@[i].wf() && ts@[i].model() == ms[i],
                BinaryStream::Eof => r == Err::<(Vec<Title>, usize), TitleError>(TitleError::Eof),
                BinaryStream::Id(id) => r matches Err(TitleError::IdParsing(e))
                    && TitleId::try_from_error(id, e),
            },
    {
        let mut titles: Vec<Title> = Vec::new();
        let mut pos: usize = 0;
        let mut count: usize = 0;
        let ghost target = binary_stream(source@, max as nat);
        proof {
            assert(source@.skip(0) =~= source@);
            match target {
                BinaryStream::Done(ms, n) => {
                    assert(Seq::new(0nat, |i: int| titles@[i].model()) + ms =~= ms);
                },
                _ => {},
            }
        }
        while count < max && pos < source.len()
            invariant
                target == binary_stream(source@, max as nat),
                count <= max,
                pos <= source@.len(),
                binary_stream_input(source@.skip(pos as int), (max - count) as nat),
                titles@.len() == count,
                forall|i: int| 0 <= i < count ==> #[trigger] titles@[i].wf(),
                ({
                    let ts = Seq::new(count as nat, |i: int| titles@[i].model());
                    match binary_stream(source@.skip(pos as int), (max - count) as nat) {
                        BinaryStream::Done(ms, n) => target == BinaryStream::Done(ts + ms, (pos + n) as nat),
                        other => target == other,
                    }
                }),
            decreases source@.len() - pos,
        {
            let rest = vstd::slice::slice_subrange(source, pos, source.len());
            let ghost rs = source@.skip(pos as int);
            assert(rest@ =~= rs);
            let ghost old_ts = Seq::new(count as nat, |i: int| titles@[i].model());
            match Title::from_binary(rest) {
                Ok((t, used)) => {
                    proof {
                        assert(0 < binary_end(rs) <= rs.len());
                        assert(rs.skip(binary_end(rs)) =~= source@.skip(pos + used));
                    }
                    titles.push(t);
                    pos = pos + used;
                    count = count + 1;
                    proof {
                        let ts = Seq::new(count as nat, |i: int| titles@[i].model());
                        assert(ts =~= old_ts + seq![binary_model(rs)]);
                        match binary_stream(source@.skip(pos as int), (max - count) as nat) {
                            BinaryStream::Done(ms, n) => {
                                assert(ts + ms =~= old_ts + (seq![binary_model(rs)] + ms));
                            },
                            _ => {},
                        }
                    }
                },
                Err(e) => {
                    proof {
                        let k = (max - count) as nat;
                        assert(rs.len() > 0 && k > 0);
                        if rs.len() < 23 {
                            assert(binary_stream(rs, k) == BinaryStream::Eof);
                        } else {
                            assert(!is_title_id(binary_id(rs)));
                            assert(binary_stream(rs, k) == BinaryStream::Id(binary_id(rs)));
                        }
                    }
                    return Err(e);
                },
            }
        }
        proof {
            let ts = Seq::new(count as nat, |i: int| titles@[i].model());
            assert(ts + Seq::<TitleModel>::empty() =~= ts);
        }
        Ok((titles, pos))
    }
}

} // verus!

verus! {

/// What reading every title from the binary forms in `s` gives, up to the end of `s`.
pub open spec fn binary_all(s: Seq<u8>) -> BinaryStream
    decreases s.len(),
{
    if s.len() == 0 {
        BinaryStream::Done(Seq::empty(), 0)
    } else if s.len() < 23 {
        BinaryStream::Eof
    } else if !is_title_id(binary_id(s)) {
        BinaryStream::Id(binary_id(s))
    } else if binary_end(s) <= 0 || binary_end(s) > s.len() {
        BinaryStream::Done(Seq::empty(), 0)
    } else {
        after_title(binary_model(s), binary_end(s), binary_all(s.skip(binary_end(s))))
    }
}

/// What reading gives when a title with content `m` taking `n` bytes comes before what `rest`
/// gives.
pub open spec fn after_title(m: TitleModel, n: int, rest: BinaryStream) -> BinaryStream {
    match rest {
        BinaryStream::Done(ms, k) => BinaryStream::Done(seq![m] + ms, (n + k) as nat),
        other => other,
    }
}

/// What reading gives when titles `ms` taking `n` bytes come before what `rest` gives.
pub open spec fn after_titles(ms: Seq<TitleModel>, n: nat, rest: BinaryStream) -> BinaryStream {
    match rest {
        BinaryStream::Done(ms2, k) => BinaryStream::Done(ms + ms2, n + k),
        other => other,
    }
}

/// Whether every binary form that reading all of `s` comes to is one that
/// `Title::from_binary` takes.
pub open spec fn binary_all_input(s: Seq<u8>) -> bool
    decreases s.len(),
{
    s.len() == 0 || (binary_input(s) && (s.len() >= 23 && is_title_id(binary_id(s)) && 0
        < binary_end(s) <= s.len() ==> binary_all_input(s.skip(binary_end(s)))))
}

/// Reading up to `k` titles and then the rest gives what reading all titles gives; the titles
/// read take at least one byte when there is one to take.
pub proof fn lemma_binary_chunk(s: Seq<u8>, k: nat)
    requires
        binary_all_input(s),
    ensures
        binary_stream_input(s, k),
        match binary_stream(s, k) {
            BinaryStream::Done(ms, n) => {
                &&& n <= s.len()
                &&& binary_all_input(s.skip(n as int))
                &&& binary_all(s) == after_titles(ms, n, binary_all(s.skip(n as int)))
                &&& (s.len() > 0 && k > 0 ==> n > 0)
            },
            other => binary_all(s) == other,
        },
    decreases k,
{
    if k == 0 || s.len() == 0 {
        assert(s.skip(0) =~= s);
        match binary_all(s) {
            BinaryStream::Done(ms, n) => {
                assert(Seq::<TitleModel>::empty() + ms =~= ms);
            },
            _ => {},
        }
    } else if s.len() < 23 {
    } else if !is_title_id(binary_id(s)) {
    } else if binary_end(s) <= 0 || binary_end(s) > s.len() {
        assert(binary_text_end(s, binary_id_end(s)) >= binary_id_end(s) + 2);
    } else {
        let e = binary_end(s);
        let r = s.skip(e);
        lemma_binary_chunk(r, (k - 1) as nat);
        match binary_stream(r, (k - 1) as nat) {
            BinaryStream::Done(ms, n) => {
                assert(r.skip(n as int) =~= s.skip(e + n));
                match binary_all(r.skip(n as int)) {
                    BinaryStream::Done(ms2, n2) => {
                        assert(seq![binary_model(s)] + ms + ms2 =~= seq![binary_model(s)] + (ms
                            + ms2));
                    },
                    _ => {},
                }
            },
            _ => {},
        }
    }
}

} // verus!

verus! {

/// The binary forms of titles, one after another.
pub open spec fn titles_binary(ts: Seq<Title>) -> Seq<u8>
    decreases ts.len(),
{
    if ts.len() == 0 {
        Seq::empty()
    } else {
        title_binary(ts[0].model()) + titles_binary(ts.skip(1))
    }
}

/// The contents of titles.
pub open spec fn titles_models(ts: Seq<Title>) -> Seq<TitleModel> {
    ts.map_values(|t: Title| t.model())
}

/// What a read gives back of a write, for many titles: the binary forms of titles written one
/// after another read back as the titles' contents, and take all the bytes. This holds when
/// each title fits its binary form, and each binary form is at least 23 bytes long.
pub proof fn lemma_binary_all_roundtrip(ts: Seq<Title>)
    requires
        forall|i: int|
            0 <= i < ts.len() ==> #[trigger] ts[i].wf() && fits_binary(ts[i].model())
                && title_binary(ts[i].model()).len() >= 23,
    ensures
        binary_all_input(titles_binary(ts)),
        binary_all(titles_binary(ts)) == BinaryStream::Done(
            titles_models(ts),
            titles_binary(ts).len(),
        ),
    decreases ts.len(),
{
    if ts.len() > 0 {
        let t = ts[0];
        let tail = ts.skip(1);
        assert forall|i: int| 0 <= i < tail.len() implies #[trigger] tail[i].wf() && fits_binary(
            tail[i].model(),
        ) && title_binary(tail[i].model()).len() >= 23 by {
            assert(tail[i] == ts[i + 1]);
        }
        lemma_binary_all_roundtrip(tail);
        assert(ts[0].wf());
        let rest = titles_binary(tail);
        lemma_binary_roundtrip(t, rest);
        let s = title_binary(t.model()) + rest;
        assert(s == titles_binary(ts));
        assert(s.skip(binary_end(s)) =~= rest);
        assert(titles_models(ts) =~= seq![t.model()] + titles_models(tail));
        assert(binary_all(s) == after_title(binary_model(s), binary_end(s), binary_all(rest)));
    } else {
        assert(titles_models(ts) =~= Seq::<TitleModel>::empty());
    }
}

} // verus!
