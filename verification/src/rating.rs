//! Average user ratings of titles.

use vstd::prelude::*;
use vstd::utf8::*;

use std::collections::HashMap;

use crate::number::{atoi_u32, atoi_unsigned};
use crate::text::{trim_end, trim_end_of, utf8_to_string};
use crate::title_id::{is_title_id, title_id_input, title_id_number, TitleId, TitleIdError};
use crate::tsv::{split_bytes, split_seq, lemma_split_valid_utf8};

verus! {

/// Average user rating of a title (ten times the average, from 0 to 100) together with the
/// number of votes.
#[derive(Debug, Clone, Copy, PartialEq, Eq, Structural, Hash, PartialOrd, Ord)]
pub struct Rating {
    rating: u8,
    votes: u32,
}

impl Rating {
    /// Ten times the average user rating.
    pub closed spec fn spec_rating(self) -> u8 {
        self.rating
    }

    /// The number of votes.
    pub closed spec fn spec_votes(self) -> u32 {
        self.votes
    }

    /// Creates a rating.
    pub fn new(rating: u8, votes: u32) -> (r: Rating)
        ensures
            r.spec_rating() == rating,
            r.spec_votes() == votes,
    {
        Rating { rating, votes }
    }

    /// Returns ten times the average user rating.
    pub fn rating(&self) -> (r: u8)
        ensures
            r == self.spec_rating(),
    {
        self.rating
    }

    /// Returns the number of votes.
    pub fn votes(&self) -> (r: u32)
        ensures
            r == self.spec_votes(),
    {
        self.votes
    }
}

/// Errors when reading ratings.
#[derive(Debug, Clone, PartialEq, Eq)]
pub enum RatingsError {
    /// A column is missing.
    Eof,
    /// The title ID does not parse.
    IdParsing(TitleIdError),
    /// The rating is not a valid number.
    InvalidRating(String),
    /// The number of votes is not a valid number.
    Votes,
    /// The title ID occurs twice.
    DuplicateId(String),
}

/// The tab character that separates columns.
pub open spec fn tab() -> u8 {
    9u8
}

/// The bytes of a line of the ratings data without its trailing white space.
pub open spec fn rating_line_bytes(line: Seq<char>) -> Seq<u8> {
    encode_utf8(trim_end_of(line))
}

/// The columns of a line of the ratings data.
pub open spec fn rating_line_columns(line: Seq<char>) -> Seq<Seq<u8>> {
    split_seq(rating_line_bytes(line), tab())
}

/// Whether a line of the ratings data can be read: when it is not blank, its first column is
/// at least two bytes long and its number fits a `usize`.
pub open spec fn rating_line_input(line: Seq<char>) -> bool {
    rating_line_bytes(line).len() > 0 ==> title_id_input(rating_line_columns(line)[0])
}

/// Returns whether a line of the ratings data can be read.
pub fn rating_line_ok(line: &str) -> (r: bool)
    ensures
        r == rating_line_input(line@),
{
    let bytes = trim_end(line).as_bytes();
    if bytes.len() == 0 {
        return true;
    }
    let cols = split_bytes(bytes, 9u8);
    let ghost cv = cols@.map_values(|v: Vec<u8>| v@);
    proof {
        assert(cv == rating_line_columns(line@));
        assert(cv[0] == cols@[0]@);
    }
    crate::title_id::title_id_input_ok(cols[0].as_slice())
}

/// What reading a rating whose average converts to `tenths` does, given the columns `cols` of
/// its line: the ratings `before` become `after` and `r` is returned.
pub open spec fn rating_outcome(
    cols: Seq<Seq<u8>>,
    tenths: Option<u8>,
    before: Map<usize, Rating>,
    after: Map<usize, Rating>,
    r: Result<(), RatingsError>,
) -> bool {
    let num = title_id_number(cols[0]) as usize;
    match tenths {
        None => r matches Err(RatingsError::InvalidRating(s)) && s@ == decode_utf8(cols[1])
            && after == before,
        Some(v) => if cols.len() < 3 {
            r == Err::<(), RatingsError>(RatingsError::Eof) && after == before
        } else {
            match atoi_unsigned(cols[2], 0xffff_ffff) {
                None => r == Err::<(), RatingsError>(RatingsError::Votes) && after == before,
                Some(n) => {
                    &&& after == before.insert(num, after[num])
                    &&& after[num].spec_rating() == v
                    &&& after[num].spec_votes() == n
                    &&& !before.contains_key(num) ==> r is Ok
                    &&& before.contains_key(num) ==> (r matches Err(RatingsError::DuplicateId(s))
                        && s@ == decode_utf8(cols[0]))
                },
            }
        },
    }
}

/// Maps title numbers to their ratings.
pub struct Ratings {
    ratings: HashMap<usize, Rating>,
}

impl Ratings {
    /// The ratings, keyed by title number.
    pub closed spec fn view(&self) -> Map<usize, Rating> {
        self.ratings@
    }

    /// Creates an empty set of ratings.
    pub fn new() -> (r: Ratings)
        ensures
            r.view() == Map::<usize, Rating>::empty(),
    {
        Ratings { ratings: HashMap::new() }
    }

    /// The number of titles that have a rating.
    pub fn len(&self) -> (r: usize)
        ensures
            r == self.view().len(),
    {
        broadcast use vstd::std_specs::hash::group_hash_axioms;
        self.ratings.len()
    }

    /// Returns the rating of the title with the given number.
    pub fn get(&self, num: usize) -> (r: Option<Rating>)
        ensures
            r == (if self.view().contains_key(num) {
                Some(self.view()[num])
            } else {
                None
            }),
    {
        broadcast use vstd::std_specs::hash::group_hash_axioms;
        match self.ratings.get(&num) {
            Some(r) => Some(*r),
            None => None,
        }
    }

    /// Records a rating for a title number, whatever was recorded before.
    pub fn insert(&mut self, num: usize, rating: Rating) -> (r: bool)
        ensures
            final(self).view() == old(self).view().insert(num, rating),
            r == !old(self).view().contains_key(num),
    {
        broadcast use vstd::std_specs::hash::group_hash_axioms;
        self.ratings.insert(num, rating).is_none()
    }

    /// Records the rating of a title; a title that already has a rating is an error.
    pub fn add(&mut self, id: &TitleId, rating: Rating) -> (r: Result<(), RatingsError>)
        requires
            id.wf(),
        ensures
            !old(self).view().contains_key(id.spec_num()) ==> r is Ok,
            old(self).view().contains_key(id.spec_num()) ==> (r matches Err(RatingsError::DuplicateId(s)) && s@ == id.spec_text()),
            final(self).view() == old(self).view().insert(id.spec_num(), rating),
    {
        if self.insert(id.as_usize(), rating) {
            Ok(())
        } else {
            Err(RatingsError::DuplicateId(id.as_str().to_owned()))
        }
    }

    /// Reads a line of the ratings data (title ID, average rating and number of votes,
    /// separated by tabs) and records the rating; `tenths` converts the text of the average
    /// to ten times its value, or gives `None` when the text is no valid rating. A blank line
    /// is passed over.
    pub fn add_line<F: Fn(&str) -> Option<u8>>(&mut self, line: &str, tenths: F) -> (r: Result<
        (),
        RatingsError,
    >)
        requires
            forall|text: &str| tenths.requires((text,)),
            rating_line_input(line@),
        ensures
            ({
                let t = rating_line_bytes(line@);
                let cols = rating_line_columns(line@);
                if t.len() == 0 {
                    r is Ok && final(self).view() == old(self).view()
                } else if !is_title_id(cols[0]) {
                    &&& r matches Err(RatingsError::IdParsing(e)) && TitleId::try_from_error(
                        cols[0],
                        e,
                    )
                    &&& final(self).view() == old(self).view()
                } else if cols.len() < 2 {
                    r == Err::<(), RatingsError>(RatingsError::Eof) && final(self).view() == old(
                        self,
                    ).view()
                } else {
                    exists|text: &str, v: Option<u8>|
                        text@ == decode_utf8(cols[1]) && #[trigger] tenths.ensures((text,), v)
                            && rating_outcome(cols, v, old(self).view(), final(self).view(), r)
                }
            }),
    {
        let trimmed = trim_end(line);
        let bytes = trimmed.as_bytes();
        if bytes.len() == 0 {
            return Ok(());
        }
        let cols = split_bytes(bytes, 9u8);
        let ghost cv = cols@.map_values(|v: Vec<u8>| v@);
        proof {
            encode_utf8_valid_utf8(trimmed@);
            lemma_split_valid_utf8(bytes@, 9u8);
            assert(cv[0] == cols@[0]@);
        }
        let id = match TitleId::try_from(cols[0].as_slice()) {
            Ok(id) => id,
            Err(e) => {
                return Err(RatingsError::IdParsing(e));
            },
        };
        if cols.len() < 2 {
            return Err(RatingsError::Eof);
        }
        proof {
            assert(cv[1] == cols@[1]@);
            id.lemma_wf();
        }
        let text = match utf8_to_string(cols[1].as_slice()) {
            Some(t) => t,
            None => {
                proof {
                    assert(false);
                }
                return Err(RatingsError::Eof);
            },
        };
        let v = tenths(text.as_str());
        let ghost before = self.view();
        let r = match v {
            None => Err(RatingsError::InvalidRating(text)),
            Some(tenth) => {
                if cols.len() < 3 {
                    Err(RatingsError::Eof)
                } else {
                    proof {
                        assert(cv[2] == cols@[2]@);
                    }
                    match atoi_u32(cols[2].as_slice()) {
                        Some(n) => self.add(&id, Rating::new(tenth, n)),
                        None => Err(RatingsError::Votes),
                    }
                }
            },
        };
        proof {
            assert(rating_outcome(cv, v, before, self.view(), r));
        }
        r
    }
}

} // verus!
