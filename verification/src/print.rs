//! What the command line tool shows: output formats, the texts of the rows of the results
//! table and the messages about what was found.

use vstd::prelude::*;
use vstd::utf8::*;

use std::time::Duration;

use crate::cli::{decimal_text, push_decimal};
use crate::db::Query;
use crate::genre::{genres_text, Genres};
use crate::title::Title;
use crate::title_type::TitleType;

verus! {

/// The output formats of search results.
#[derive(Debug, Clone, Copy, PartialEq, Eq, Structural)]
pub enum OutputFormat {
    Json,
    Table,
    Yaml,
}

impl OutputFormat {
    /// The output format named `json`, `table` or `yaml`, if any.
    pub fn from_name(name: &str) -> (r: Option<OutputFormat>)
        ensures
            r == (if name@ == "json"@ {
                Some(OutputFormat::Json)
            } else if name@ == "table"@ {
                Some(OutputFormat::Table)
            } else if name@ == "yaml"@ {
                Some(OutputFormat::Yaml)
            } else {
                None
            }),
    {
        if crate::text::str_eq(name, "json") {
            Some(OutputFormat::Json)
        } else if crate::text::str_eq(name, "table") {
            Some(OutputFormat::Table)
        } else if crate::text::str_eq(name, "yaml") {
            Some(OutputFormat::Yaml)
        } else {
            None
        }
    }
}

/// Shows search results as JSON.
pub struct JsonPrinter;

impl JsonPrinter {
    /// Makes a JSON printer.
    pub fn new() -> (r: JsonPrinter) {
        JsonPrinter
    }

    /// The output format of the printer.
    pub fn get_format(&self) -> (r: OutputFormat)
        ensures
            r == OutputFormat::Json,
    {
        OutputFormat::Json
    }
}

/// Shows search results as YAML.
pub struct YamlPrinter;

impl YamlPrinter {
    /// Makes a YAML printer.
    pub fn new() -> (r: YamlPrinter) {
        YamlPrinter
    }

    /// The output format of the printer.
    pub fn get_format(&self) -> (r: OutputFormat)
        ensures
            r == OutputFormat::Yaml,
    {
        OutputFormat::Yaml
    }
}

/// Shows search results as a table, with colors or without.
pub struct TablePrinter {
    pub color: bool,
}

impl TablePrinter {
    /// Makes a table printer.
    pub fn new(color: bool) -> (r: TablePrinter)
        ensures
            r.color == color,
    {
        TablePrinter { color }
    }

    /// The output format of the printer.
    pub fn get_format(&self) -> (r: OutputFormat)
        ensures
            r == OutputFormat::Table,
    {
        OutputFormat::Table
    }
}

/// A text cut to its first `n` characters followed by `...` when it is longer than `n` bytes,
/// as `Truncatable::truncate` makes it.
pub open spec fn truncated_text(s: Seq<char>, n: nat) -> Seq<char> {
    if n < encode_utf8(s).len() {
        s.take(if n < s.len() {
            n as int
        } else {
            s.len() as int
        }) + "..."@
    } else {
        s
    }
}

/// Cuts a text with `truncatable::Truncatable::truncate`: when the text is longer than `n`
/// bytes, its first `n` characters (all, if it has fewer) followed by `...`, else the text.
#[verifier::external_body]
fn truncate(s: &str, n: usize) -> (r: String)
    ensures
        r@ == truncated_text(s@, n as nat),
{
    truncatable::Truncatable::from(s).truncate(n)
}

/// The text that `humantime::format_duration` shows for a duration of `secs` seconds.
pub uninterp spec fn duration_text(secs: u64) -> Seq<char>;

/// Shows a duration of `secs` seconds with `humantime::format_duration`.
#[verifier::external_body]
fn format_duration_secs(secs: u64) -> (r: String)
    ensures
        r@ == duration_text(secs),
{
    humantime::format_duration(Duration::from_secs(secs)).to_string()
}

/// The error of the `url` crate when a URL cannot be read or joined.
#[verifier::external_type_specification]
#[verifier::external_body]
pub struct ExParseError(url::ParseError);

/// The text of the URL that `Url::join` makes of `path` against the URL that `Url::parse`
/// reads from `base`; `None` when either fails.
pub uninterp spec fn joined_url(base: Seq<char>, path: Seq<char>) -> Option<Seq<char>>;

/// Joins `path` to the URL written as `base` with `url::Url::parse` and `url::Url::join`, and
/// gives the text of the result or the error of either.
#[verifier::external_body]
fn join_url(base: &str, path: &str) -> (r: Result<String, url::ParseError>)
    ensures
        r is Err <==> joined_url(base@, path@) is None,
        r matches Ok(u) ==> joined_url(base@, path@) == Some(u@),
{
    url::Url::parse(base).and_then(|u| u.join(path)).map(String::from)
}

/// Errors when making a row of the results table.
#[derive(Debug, Clone, Copy, PartialEq, Eq)]
pub enum LinkError {
    /// The link to the title's page cannot be made from the base URL and the title's ID.
    Join(url::ParseError),
}

/// The colors of ratings in the results table.
#[derive(Debug, Clone, Copy, PartialEq, Eq, Structural)]
pub enum RatingStyle {
    /// A rating of 70 or more.
    Green,
    /// A rating from 60 to 69.
    Yellow,
    /// A rating below 60.
    Red,
}

/// The color of a rating (ten times the average).
pub open spec fn rating_style_of(rating: u8) -> RatingStyle {
    if rating >= 70 {
        RatingStyle::Green
    } else if 60 <= rating < 70 {
        RatingStyle::Yellow
    } else {
        RatingStyle::Red
    }
}

/// The texts of a row of the results table, and the color of its rating, if it is shown in
/// color.
pub struct TableRow {
    pub cells: Vec<String>,
    pub rating_style: Option<RatingStyle>,
}

/// The texts of the row of a title before its link: primary title (cut to 50 characters), original title (cut
/// to 30), start year, rating out of 100, votes, runtime, genres, type and IMDB ID, each empty
/// when the title has none.
pub open spec fn row_texts(t: Title) -> Seq<Seq<char>> {
    let h = t.spec_header();
    seq![
        truncated_text(t.model().primary, 50),
        match t.model().original {
            Some(o) => truncated_text(o, 30),
            None => Seq::empty(),
        },
        match h.spec_start_year() {
            Some(y) => decimal_text(y as nat),
            None => Seq::empty(),
        },
        match h.spec_rating_parts() {
            Some((r, _)) => decimal_text(r as nat) + "/100"@,
            None => Seq::empty(),
        },
        match h.spec_rating_parts() {
            Some((_, v)) => decimal_text(v as nat),
            None => Seq::empty(),
        },
        match h.spec_runtime_minutes() {
            Some(m) => duration_text((m * 60) as u64),
            None => Seq::empty(),
        },
        genres_text(Genres::spec_from_bits(h.spec_genres_bits()).spec_list()),
        TitleType::spec_from(h.spec_title_type_value() as u8).spec_name(),
        t.spec_title_id().spec_text(),
    ]
}

impl TablePrinter {
    /// Makes the row of the results table for a title, ending with the link to its page: its
    /// ID joined to `imdb_url`. Its rating has a color when the printer shows colors. It is an
    /// error when the link cannot be made.
    pub fn create_table_row(&self, title: &Title, imdb_url: &str) -> (r: Result<TableRow, LinkError>)
        requires
            title.wf(),
        ensures
            match joined_url(imdb_url@, title.spec_title_id().spec_text()) {
                Some(link) => r matches Ok(row) && row.cells@.map_values(|c: String| c@)
                    == row_texts(*title).push(link) && row.rating_style == (
                match title.spec_header().spec_rating_parts() {
                    Some((rt, _)) => if self.color {
                        Some(rating_style_of(rt))
                    } else {
                        None
                    },
                    None => None,
                }),
                None => r is Err,
            },
    {
        let link = match join_url(imdb_url, title.title_id().as_str()) {
            Ok(link) => link,
            Err(e) => {
                return Err(LinkError::Join(e));
            },
        };
        let mut cells: Vec<String> = Vec::new();
        cells.push(truncate(title.primary_title(), 50));
        match title.original_title() {
            Some(o) => cells.push(truncate(o, 30)),
            None => cells.push(String::new()),
        }
        match title.start_year() {
            Some(y) => {
                let mut s = String::new();
                push_decimal(&mut s, y as u64);
                cells.push(s);
            },
            None => cells.push(String::new()),
        }
        let mut rating_style = None;
        match title.rating() {
            Some(rating) => {
                let mut s = String::new();
                push_decimal(&mut s, rating.rating() as u64);
                s.append("/100");
                cells.push(s);
                let mut v = String::new();
                push_decimal(&mut v, rating.votes() as u64);
                cells.push(v);
                if self.color {
                    rating_style = Some(
                        if rating.rating() >= 70 {
                            RatingStyle::Green
                        } else if 60 <= rating.rating() && rating.rating() < 70 {
                            RatingStyle::Yellow
                        } else {
                            RatingStyle::Red
                        },
                    );
                }
            },
            None => {
                cells.push(String::new());
                cells.push(String::new());
            },
        }
        match title.runtime_minutes() {
            Some(m) => cells.push(format_duration_secs(m as u64 * 60)),
            None => cells.push(String::new()),
        }
        let genres = title.genres();
        proof {
            genres.lemma_from_bits(genres.spec_bits());
        }
        cells.push(genres.to_text());
        cells.push(String::from_str(title.title_type().name()));
        cells.push(String::from_str(title.title_id().as_str()));
        cells.push(link);
        proof {
            lemma_row_cells(cells@, *title, cells@[9]@);
        }
        Ok(TableRow { cells, rating_style })
    }
}

proof fn lemma_row_cells(cells: Seq<String>, t: Title, link: Seq<char>)
    requires
        cells.len() == 10,
        forall|i: int| 0 <= i < 9 ==> #[trigger] cells[i]@ == row_texts(t)[i],
        cells[9]@ == link,
    ensures
        cells.map_values(|c: String| c@) == row_texts(t).push(link),
{
    assert(cells.map_values(|c: String| c@) =~= row_texts(t).push(link));
}

/// The headings of the columns of the results table.
pub fn header_cells() -> (r: Vec<&'static str>)
    ensures
        r@.map_values(|s: &str| s@) == seq![
            "Primary Title"@,
            "Original Title"@,
            "Year"@,
            "Rating"@,
            "Votes"@,
            "Runtime"@,
            "Genres"@,
            "Type"@,
            "IMDB ID"@,
            "IMDB Link"@,
        ],
{
    let r = vec![
        "Primary Title",
        "Original Title",
        "Year",
        "Rating",
        "Votes",
        "Runtime",
        "Genres",
        "Type",
        "IMDB ID",
        "IMDB Link",
    ];
    assert(r@.map_values(|s: &str| s@) =~= seq![
        "Primary Title"@,
        "Original Title"@,
        "Year"@,
        "Rating"@,
        "Votes"@,
        "Runtime"@,
        "Genres"@,
        "Type"@,
        "IMDB ID"@,
        "IMDB Link"@,
    ]);
    r
}

/// A message about the results of a search, to show on the standard output or, when nothing
/// was found, on the standard error.
pub enum ResultsMessage {
    /// Nothing was found.
    NoMatches(String),
    /// Titles were found; the table follows.
    Found(String),
}

/// The message about what a search for `query` titles found: `total` titles, of which
/// `shown` are shown, for the search terms if any.
pub open spec fn results_message_text(
    query: Query,
    total: nat,
    shown: nat,
    truncated: bool,
    terms: Option<Seq<char>>,
) -> Seq<char> {
    let q = match query {
        Query::Movies => "movie"@,
        Query::Series => "series"@,
    };
    let for_terms = match terms {
        Some(t) => " for `"@ + t + "`"@,
        None => Seq::empty(),
    };
    if total == 0 {
        "No "@ + q + " matches found"@ + for_terms
    } else {
        let matches = if total == 1 {
            "match"@
        } else {
            "matches"@
        };
        "Found "@ + decimal_text(total) + " "@ + q + " "@ + matches + for_terms + if truncated {
            ", "@ + decimal_text(shown) + " will be displayed:"@
        } else {
            ":"@
        }
    }
}

/// Makes the message about what a search for `query` titles found: `total` titles, of which
/// `shown` are shown, for the search terms if any.
pub fn results_message(
    query: Query,
    total: usize,
    shown: usize,
    truncated: bool,
    terms: Option<&str>,
) -> (r: ResultsMessage)
    ensures
        match r {
            ResultsMessage::NoMatches(s) => total == 0 && s@ == results_message_text(
                query,
                0,
                shown as nat,
                truncated,
                match terms {
                    Some(t) => Some(t@),
                    None => None,
                },
            ),
            ResultsMessage::Found(s) => total > 0 && s@ == results_message_text(
                query,
                total as nat,
                shown as nat,
                truncated,
                match terms {
                    Some(t) => Some(t@),
                    None => None,
                },
            ),
        },
{
    let q = query.name();
    let mut s = String::new();
    if total == 0 {
        s.append("No ");
        s.append(q);
        s.append(" matches found");
        match terms {
            Some(t) => {
                s.append(" for `");
                s.append(t);
                s.append("`");
            },
            None => {},
        }
        return ResultsMessage::NoMatches(s);
    }
    s.append("Found ");
    push_decimal(&mut s, total as u64);
    s.append(" ");
    s.append(q);
    s.append(" ");
    if total == 1 {
        s.append("match");
    } else {
        s.append("matches");
    }
    match terms {
        Some(t) => {
            s.append(" for `");
            s.append(t);
            s.append("`");
        },
        None => {},
    }
    if truncated {
        s.append(", ");
        push_decimal(&mut s, shown as u64);
        s.append(" will be displayed:");
    } else {
        s.append(":");
    }
    ResultsMessage::Found(s)
}

} // verus!
