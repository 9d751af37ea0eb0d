//! Importing the title data: each line of tab separated values becomes the binary form of a
//! movie or a series, or is passed over.

use vstd::prelude::*;
use vstd::utf8::*;

use crate::rating::{Rating, Ratings};
use crate::text::{trim_end, trim_end_of};
use crate::title::{
    title_binary, tsv_columns, tsv_line_input, tsv_parse, Title, TitleError, TsvAction, TsvFailure,
    TsvParse,
};
use crate::title_id::TitleId;

verus! {

/// The bytes of a line of the title data without its trailing white space.
pub open spec fn title_line_bytes(line: Seq<char>) -> Seq<u8> {
    encode_utf8(trim_end_of(line))
}

/// Whether a line of the title data can be imported: when it is not blank, it is one that
/// `Title::from_tsv` takes.
pub open spec fn title_line_input(line: Seq<char>, ratings: Map<usize, Rating>) -> bool {
    title_line_bytes(line).len() > 0 ==> tsv_line_input(title_line_bytes(line), ratings)
}

/// Whether `e` is the error of reading the line `line` of title data, which gives `p`.
pub open spec fn tsv_error(p: TsvParse, line: Seq<u8>, e: TitleError) -> bool {
    match (e, p) {
        (TitleError::IdParsing(ie), TsvParse::Fail(TsvFailure::Id)) => TitleId::try_from_error(
            tsv_columns(line)[0],
            ie,
        ),
        (TitleError::Eof, TsvParse::Fail(TsvFailure::Eof)) => true,
        (TitleError::TitleType, TsvParse::Fail(TsvFailure::TitleType)) => true,
        (TitleError::Adult, TsvParse::Fail(TsvFailure::Adult)) => true,
        (TitleError::StartYear, TsvParse::Fail(TsvFailure::StartYear)) => true,
        (TitleError::EndYear, TsvParse::Fail(TsvFailure::EndYear)) => true,
        (TitleError::RuntimeMinutes, TsvParse::Fail(TsvFailure::RuntimeMinutes)) => true,
        (TitleError::Genre, TsvParse::Fail(TsvFailure::Genre)) => true,
        _ => false,
    }
}

/// Reads a line of the title data, with the ratings by title number, and appends the binary
/// form of the title it gives to the movies or to the series. Blank lines, adult titles and
/// titles that are neither movies nor series are passed over.
pub fn import_title_line(
    line: &str,
    ratings: &Ratings,
    movies: &mut Vec<u8>,
    series: &mut Vec<u8>,
) -> (r: Result<(), TitleError>)
    requires
        title_line_input(line@, ratings.view()),
    ensures
        ({
            let t = title_line_bytes(line@);
            if t.len() == 0 {
                r is Ok && final(movies)@ == old(movies)@ && final(series)@ == old(series)@
            } else {
                match tsv_parse(t, ratings.view()) {
                    TsvParse::Skip => r is Ok && final(movies)@ == old(movies)@ && final(series)@
                        == old(series)@,
                    TsvParse::Movie(m) => r is Ok && final(movies)@ == old(movies)@ + title_binary(
                        m,
                    ) && final(series)@ == old(series)@,
                    TsvParse::Series(m) => r is Ok && final(series)@ == old(series)@
                        + title_binary(m) && final(movies)@ == old(movies)@,
                    p => r matches Err(e) && tsv_error(p, t, e) && final(movies)@ == old(movies)@
                        && final(series)@ == old(series)@,
                }
            }
        }),
{
    let trimmed = trim_end(line);
    let bytes = trimmed.as_bytes();
    if bytes.len() == 0 {
        return Ok(());
    }
    match Title::from_tsv(bytes, ratings) {
        Ok(TsvAction::Movie(title)) => {
            let b = title.to_binary();
            crate::bytes::append_bytes(movies, b.as_slice());
            Ok(())
        },
        Ok(TsvAction::Series(title)) => {
            let b = title.to_binary();
            crate::bytes::append_bytes(series, b.as_slice());
            Ok(())
        },
        Ok(TsvAction::Skip) => Ok(()),
        Err(e) => Err(e),
    }
}

/// Returns whether `import_title_line` takes the line with these ratings.
pub fn title_line_ok(line: &str, ratings: &Ratings) -> (r: bool)
    ensures
        r == title_line_input(line@, ratings.view()),
{
    let bytes = trim_end(line).as_bytes();
    bytes.len() == 0 || Title::tsv_line_ok(bytes, ratings)
}

} // verus!
