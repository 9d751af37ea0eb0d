//! The fixed-size header that stores the numeric information of a title.
//!
//! Version 0 of the header is a 128-bit number whose bits are, from the least significant
//! on: 6 bits of version, 1 bit for "has an original title", 1 bit for "is adult", 16 bits of
//! runtime in minutes (0 when unknown), 9 bits of start year counted from 1800 (0 when
//! unknown), 7 bits of rating, 23 bits of number of votes (0 when unrated), 5 bits of title
//! type and 32 bits of genres. The remaining bits are reserved.

use vstd::prelude::*;

use vstd::bytes::{spec_u128_from_le_bytes, spec_u128_to_le_bytes, u128_from_le_bytes, u128_to_le_bytes};

use crate::genre::Genres;
use crate::rating::Rating;
use crate::title_type::TitleType;

verus! {

/// The field of `width` bits of `bits` that starts at bit `start`.
pub open spec fn field(bits: u128, start: u128, width: u128) -> u128 {
    (bits >> start) & (((1u128 << width) - 1) as u128)
}

/// The 128-bit number that version 0 of the header stores for the given raw field values.
pub open spec fn pack_version_0(
    has_original_title: bool,
    is_adult: bool,
    runtime: u16,
    year: u16,
    rating: u8,
    votes: u32,
    title_type: u8,
    genres: u32,
) -> u128 {
    ((if has_original_title { 1u128 } else { 0u128 }) << 6u128) | ((if is_adult { 1u128 } else {
        0u128
    }) << 7u128) | ((runtime as u128) << 8u128) | ((year as u128) << 24u128) | ((rating as u128)
        << 33u128) | ((votes as u128) << 40u128) | ((title_type as u128) << 63u128) | ((
    genres as u128) << 68u128)
}

/// The raw runtime that the header stores for an optional runtime.
pub open spec fn runtime_field(runtime_minutes: Option<u16>) -> u16 {
    match runtime_minutes {
        Some(r) => r,
        None => 0,
    }
}

/// The raw year that the header stores for an optional start year.
pub open spec fn year_field(start_year: Option<u16>) -> u16 {
    match start_year {
        Some(y) => (y - 1800) as u16,
        None => 0,
    }
}

/// The raw rating that the header stores for an optional rating.
pub open spec fn rating_field(rating: Option<Rating>) -> u8 {
    match rating {
        Some(r) => r.spec_rating(),
        None => 0,
    }
}

/// The raw number of votes that the header stores for an optional rating.
pub open spec fn votes_field(rating: Option<Rating>) -> u32 {
    match rating {
        Some(r) => r.spec_votes(),
        None => 0,
    }
}

/// Version 0 of the header of a title.
#[derive(Debug, PartialEq, Eq, Clone, Copy, Structural)]
pub struct TitleHeader(u128);

impl TitleHeader {
    /// The 128 bits of the header.
    pub closed spec fn spec_bits(self) -> u128 {
        self.0
    }

    /// The raw title type stored in the header.
    pub open spec fn spec_title_type_value(self) -> u128 {
        field(self.spec_bits(), 63, 5)
    }

    /// Whether the header records an original title.
    pub open spec fn spec_has_original_title(self) -> bool {
        field(self.spec_bits(), 6, 1) == 1
    }

    /// Whether the header records an adult title.
    pub open spec fn spec_is_adult(self) -> bool {
        field(self.spec_bits(), 7, 1) == 1
    }

    /// The runtime in minutes that the header records, if any.
    pub open spec fn spec_runtime_minutes(self) -> Option<u16> {
        let v = field(self.spec_bits(), 8, 16);
        if v == 0 {
            None
        } else {
            Some(v as u16)
        }
    }

    /// The start year that the header records, if any.
    pub open spec fn spec_start_year(self) -> Option<u16> {
        let v = field(self.spec_bits(), 24, 9);
        if v == 0 {
            None
        } else {
            Some((1800 + v) as u16)
        }
    }

    /// The rating and number of votes that the header records; `None` when there are no votes.
    pub open spec fn spec_rating_parts(self) -> Option<(u8, u32)> {
        let votes = field(self.spec_bits(), 40, 23);
        if votes == 0 {
            None
        } else {
            Some((field(self.spec_bits(), 33, 7) as u8, votes as u32))
        }
    }

    /// The raw genre bits that the header records.
    pub open spec fn spec_genres_bits(self) -> u32 {
        field(self.spec_bits(), 68, 32) as u32
    }

    /// Creates a version 0 header.
    pub fn new_version_0(
        has_original_title: bool,
        is_adult: bool,
        runtime_minutes: Option<u16>,
        start_year: Option<u16>,
        rating: Option<Rating>,
        title_type: TitleType,
        genres: Genres,
    ) -> (r: TitleHeader)
        requires
            start_year matches Some(y) ==> y > 1800,
        ensures
            r.spec_bits() == pack_version_0(
                has_original_title,
                is_adult,
                runtime_field(runtime_minutes),
                year_field(start_year),
                rating_field(rating),
                votes_field(rating),
                title_type.spec_value(),
                genres.spec_bits(),
            ),
    {
        let version: u128 = 0;
        let has_original_title_bit: u128 = if has_original_title {
            1
        } else {
            0
        };
        let is_adult_bit: u128 = if is_adult {
            1
        } else {
            0
        };
        let runtime: u128 = match runtime_minutes {
            Some(runtime) => runtime as u128,
            None => 0,
        };
        let year: u128 = match start_year {
            Some(year) => (year - 1800) as u128,
            None => 0,
        };
        let (rating_bits, votes): (u128, u128) = match rating {
            Some(rating) => (rating.rating() as u128, rating.votes() as u128),
            None => (0, 0),
        };
        let title_type_bits: u128 = title_type.value() as u128;
        let genres_bits: u128 = genres.bits() as u128;
        let header = version | (has_original_title_bit << 6u128) | (is_adult_bit << 7u128) | (
        runtime << 8u128) | (year << 24u128) | (rating_bits << 33u128) | (votes << 40u128) | (
        title_type_bits << 63u128) | (genres_bits << 68u128);
        proof {
            assert(0u128 | (has_original_title_bit << 6u128) == has_original_title_bit << 6u128)
                by (bit_vector);
        }
        TitleHeader(header)
    }

    /// Whether the header records an original title.
    pub fn has_original_title(&self) -> (r: bool)
        ensures
            r == self.spec_has_original_title(),
    {
        let b = self.0;
        let mask: u128 = 1 << 6u128;
        proof {
            assert((b & (1u128 << 6u128)) >> 6u128 == (b >> 6u128) & (((1u128 << 1u128) - 1) as u128))
                by (bit_vector);
        }
        ((b & mask) >> 6u128) == 1
    }

    /// Whether the header records an adult title.
    pub fn is_adult(&self) -> (r: bool)
        ensures
            r == self.spec_is_adult(),
    {
        let b = self.0;
        let mask: u128 = 1 << 7u128;
        proof {
            assert((b & (1u128 << 7u128)) >> 7u128 == (b >> 7u128) & (((1u128 << 1u128) - 1) as u128))
                by (bit_vector);
        }
        ((b & mask) >> 7u128) == 1
    }

    /// The runtime in minutes that the header records, if any.
    pub fn runtime_minutes(&self) -> (r: Option<u16>)
        ensures
            r == self.spec_runtime_minutes(),
    {
        let b = self.0;
        let mask: u128 = 0xffffu128 << 8u128;
        let value = (b & mask) >> 8u128;
        proof {
            assert((b & (0xffffu128 << 8u128)) >> 8u128 == (b >> 8u128) & (((1u128 << 16u128) - 1) as u128))
                by (bit_vector);
            assert((b >> 8u128) & (((1u128 << 16u128) - 1) as u128) <= 0xffff) by (bit_vector);
        }
        if value == 0 {
            None
        } else {
            Some(value as u16)
        }
    }

    /// The start year that the header records, if any.
    pub fn start_year(&self) -> (r: Option<u16>)
        ensures
            r == self.spec_start_year(),
    {
        let b = self.0;
        let mask: u128 = 0x1ffu128 << 24u128;
        let value = (b & mask) >> 24u128;
        proof {
            assert((b & (0x1ffu128 << 24u128)) >> 24u128 == (b >> 24u128) & (((1u128 << 9u128) - 1) as u128))
                by (bit_vector);
            assert((b >> 24u128) & (((1u128 << 9u128) - 1) as u128) <= 0x1ff) by (bit_vector);
        }
        if value == 0 {
            None
        } else {
            Some(1800 + value as u16)
        }
    }

    /// The rating and number of votes that the header records; `None` when there are no votes.
    pub fn rating(&self) -> (r: Option<Rating>)
        ensures
            r matches Some(rt) ==> self.spec_rating_parts() == Some((rt.spec_rating(), rt.spec_votes())),
            r is None <==> self.spec_rating_parts() is None,
    {
        let b = self.0;
        let mask: u128 = 0x7fu128 << 33u128;
        let rating = (b & mask) >> 33u128;
        let mask: u128 = 0x7fffffu128 << 40u128;
        let votes = (b & mask) >> 40u128;
        proof {
            assert((b & (0x7fu128 << 33u128)) >> 33u128 == (b >> 33u128) & (((1u128 << 7u128) - 1) as u128))
                by (bit_vector);
            assert((b >> 33u128) & (((1u128 << 7u128) - 1) as u128) <= 0x7f) by (bit_vector);
            assert((b & (0x7fffffu128 << 40u128)) >> 40u128 == (b >> 40u128) & (((1u128 << 23u128) - 1) as u128))
                by (bit_vector);
            assert((b >> 40u128) & (((1u128 << 23u128) - 1) as u128) <= 0x7fffff) by (bit_vector);
        }
        if votes == 0 {
            None
        } else {
            Some(Rating::new(rating as u8, votes as u32))
        }
    }

    /// Returns the raw title type that the header records.
    pub fn title_type_value(&self) -> (r: u8)
        ensures
            r as u128 == self.spec_title_type_value(),
    {
        let b = self.0;
        let value = (b >> 63u128) & 0x1fu128;
        proof {
            assert(value == (b >> 63u128) & (((1u128 << 5u128) - 1) as u128) && value < 32) by (bit_vector)
                requires
                    value == (b >> 63u128) & 0x1fu128,
            ;
        }
        value as u8
    }

    /// The title type that the header records.
    pub fn title_type(&self) -> (r: TitleType)
        requires
            self.spec_title_type_value() <= 12,
        ensures
            r.spec_value() == self.spec_title_type_value(),
    {
        let b = self.0;
        let mask: u128 = 0x1fu128 << 63u128;
        let value = (b & mask) >> 63u128;
        proof {
            assert((b & (0x1fu128 << 63u128)) >> 63u128 == (b >> 63u128) & (((1u128 << 5u128) - 1) as u128))
                by (bit_vector);
        }
        TitleType::from(value as u8)
    }

    /// The set of genres that the header records.
    pub fn genres(&self) -> (r: Genres)
        ensures
            r.spec_bits() == self.spec_genres_bits(),
    {
        let b = self.0;
        let mask: u128 = 0xffffffffu128 << 68u128;
        let value = (b & mask) >> 68u128;
        proof {
            assert((b & (0xffffffffu128 << 68u128)) >> 68u128 == (b >> 68u128) & (((1u128 << 32u128) - 1) as u128))
                by (bit_vector);
            assert((b >> 68u128) & (((1u128 << 32u128) - 1) as u128) <= 0xffffffff) by (bit_vector);
        }
        Genres::from_bits(value as u32)
    }
}


/// Each field of a packed version 0 header gives back the value packed into it, provided that
/// every value fits its field.
proof fn lemma_pack_fields(
    h: u128,
    a: u128,
    runtime: u128,
    year: u128,
    rating: u128,
    votes: u128,
    tt: u128,
    genres: u128,
)
    requires
        h <= 1,
        a <= 1,
        runtime < 0x10000,
        year < 0x200,
        rating < 0x80,
        votes < 0x800000,
        tt < 0x20,
        genres < 0x100000000,
    ensures
        ({
            let b = (h << 6u128) | (a << 7u128) | (runtime << 8u128) | (year << 24u128) | (rating
                << 33u128) | (votes << 40u128) | (tt << 63u128) | (genres << 68u128);
            &&& field(b, 6, 1) == h
            &&& field(b, 7, 1) == a
            &&& field(b, 8, 16) == runtime
            &&& field(b, 24, 9) == year
            &&& field(b, 33, 7) == rating
            &&& field(b, 40, 23) == votes
            &&& field(b, 63, 5) == tt
            &&& field(b, 68, 32) == genres
        }),
{
    let b = (h << 6u128) | (a << 7u128) | (runtime << 8u128) | (year << 24u128) | (rating
        << 33u128) | (votes << 40u128) | (tt << 63u128) | (genres << 68u128);
    assert((b >> 6u128) & (((1u128 << 1u128) - 1) as u128) == h) by (bit_vector)
        requires
            b == (h << 6u128) | (a << 7u128) | (runtime << 8u128) | (year << 24u128) | (rating
                << 33u128) | (votes << 40u128) | (tt << 63u128) | (genres << 68u128),
            h <= 1,
    ;
    assert((b >> 7u128) & (((1u128 << 1u128) - 1) as u128) == a) by (bit_vector)
        requires
            b == (h << 6u128) | (a << 7u128) | (runtime << 8u128) | (year << 24u128) | (rating
                << 33u128) | (votes << 40u128) | (tt << 63u128) | (genres << 68u128),
            h <= 1,
            a <= 1,
    ;
    assert((b >> 8u128) & (((1u128 << 16u128) - 1) as u128) == runtime) by (bit_vector)
        requires
            b == (h << 6u128) | (a << 7u128) | (runtime << 8u128) | (year << 24u128) | (rating
                << 33u128) | (votes << 40u128) | (tt << 63u128) | (genres << 68u128),
            h <= 1,
            a <= 1,
            runtime < 0x10000,
    ;
    assert((b >> 24u128) & (((1u128 << 9u128) - 1) as u128) == year) by (bit_vector)
        requires
            b == (h << 6u128) | (a << 7u128) | (runtime << 8u128) | (year << 24u128) | (rating
                << 33u128) | (votes << 40u128) | (tt << 63u128) | (genres << 68u128),
            h <= 1,
            a <= 1,
            runtime < 0x10000,
            year < 0x200,
    ;
    assert((b >> 33u128) & (((1u128 << 7u128) - 1) as u128) == rating) by (bit_vector)
        requires
            b == (h << 6u128) | (a << 7u128) | (runtime << 8u128) | (year << 24u128) | (rating
                << 33u128) | (votes << 40u128) | (tt << 63u128) | (genres << 68u128),
            h <= 1,
            a <= 1,
            runtime < 0x10000,
            year < 0x200,
            rating < 0x80,
    ;
    assert((b >> 40u128) & (((1u128 << 23u128) - 1) as u128) == votes) by (bit_vector)
        requires
            b == (h << 6u128) | (a << 7u128) | (runtime << 8u128) | (year << 24u128) | (rating
                << 33u128) | (votes << 40u128) | (tt << 63u128) | (genres << 68u128),
            h <= 1,
            a <= 1,
            runtime < 0x10000,
            year < 0x200,
            rating < 0x80,
            votes < 0x800000,
    ;
    assert((b >> 63u128) & (((1u128 << 5u128) - 1) as u128) == tt) by (bit_vector)
        requires
            b == (h << 6u128) | (a << 7u128) | (runtime << 8u128) | (year << 24u128) | (rating
                << 33u128) | (votes << 40u128) | (tt << 63u128) | (genres << 68u128),
            h <= 1,
            a <= 1,
            runtime < 0x10000,
            year < 0x200,
            rating < 0x80,
            votes < 0x800000,
            tt < 0x20,
    ;
    assert((b >> 68u128) & (((1u128 << 32u128) - 1) as u128) == genres) by (bit_vector)
        requires
            b == (h << 6u128) | (a << 7u128) | (runtime << 8u128) | (year << 24u128) | (rating
                << 33u128) | (votes << 40u128) | (tt << 63u128) | (genres << 68u128),
            h <= 1,
            a <= 1,
            runtime < 0x10000,
            year < 0x200,
            rating < 0x80,
            votes < 0x800000,
            tt < 0x20,
            genres < 0x100000000,
    ;
}

/// Whether every value fits the field that version 0 of the header gives it: a start year
/// after 1800 and before 2312, a rating below 128 and fewer than 2^23 votes.
pub open spec fn fits_version_0(start_year: Option<u16>, rating: Option<Rating>) -> bool {
    &&& start_year matches Some(y) ==> 1800 < y < 2312
    &&& rating matches Some(r) ==> r.spec_rating() < 128 && r.spec_votes() < 0x800000
}

/// What a header created by `new_version_0` reads back: each value given to it, except that a
/// runtime of 0 reads as unknown and a rating with no votes reads as no rating. This holds when
/// every value fits its field.
pub proof fn lemma_header_roundtrip(
    header: TitleHeader,
    has_original_title: bool,
    is_adult: bool,
    runtime_minutes: Option<u16>,
    start_year: Option<u16>,
    rating: Option<Rating>,
    title_type: TitleType,
    genres: Genres,
)
    requires
        header.spec_bits() == pack_version_0(
            has_original_title,
            is_adult,
            runtime_field(runtime_minutes),
            year_field(start_year),
            rating_field(rating),
            votes_field(rating),
            title_type.spec_value(),
            genres.spec_bits(),
        ),
        fits_version_0(start_year, rating),
    ensures
        header.spec_has_original_title() == has_original_title,
        header.spec_is_adult() == is_adult,
        header.spec_runtime_minutes() == (if runtime_minutes == Some(0u16) {
            None
        } else {
            runtime_minutes
        }),
        header.spec_start_year() == start_year,
        header.spec_rating_parts() == (match rating {
            Some(r) => if r.spec_votes() == 0 {
                None
            } else {
                Some((r.spec_rating(), r.spec_votes()))
            },
            None => None,
        }),
        header.spec_title_type_value() == title_type.spec_value() as u128,
        header.spec_genres_bits() == genres.spec_bits(),
{
    let h: u128 = if has_original_title { 1 } else { 0 };
    let a: u128 = if is_adult { 1 } else { 0 };
    lemma_pack_fields(
        h,
        a,
        runtime_field(runtime_minutes) as u128,
        year_field(start_year) as u128,
        rating_field(rating) as u128,
        votes_field(rating) as u128,
        title_type.spec_value() as u128,
        genres.spec_bits() as u128,
    );
    assert(title_type.spec_value() <= 12);
}


/// A header created by `new_version_0` with fewer than 2^23 votes records the title type,
/// whether there is an original title, whether the title is for adults, the runtime (a runtime
/// of 0 reads as unknown) and the genres, whatever the start year and rating.
pub proof fn lemma_header_type_value(
    header: TitleHeader,
    has_original_title: bool,
    is_adult: bool,
    runtime_minutes: Option<u16>,
    start_year: Option<u16>,
    rating: Option<Rating>,
    title_type: TitleType,
    genres: Genres,
)
    requires
        header.spec_bits() == pack_version_0(
            has_original_title,
            is_adult,
            runtime_field(runtime_minutes),
            year_field(start_year),
            rating_field(rating),
            votes_field(rating),
            title_type.spec_value(),
            genres.spec_bits(),
        ),
        votes_field(rating) < 0x800000,
    ensures
        header.spec_title_type_value() == title_type.spec_value() as u128,
        header.spec_has_original_title() == has_original_title,
        header.spec_is_adult() == is_adult,
        header.spec_runtime_minutes() == (if runtime_minutes == Some(0u16) {
            None
        } else {
            runtime_minutes
        }),
        header.spec_genres_bits() == genres.spec_bits(),
{
    let b = header.spec_bits();
    let h: u128 = if has_original_title { 1 } else { 0 };
    let a: u128 = if is_adult { 1 } else { 0 };
    let runtime = runtime_field(runtime_minutes) as u128;
    let year = year_field(start_year) as u128;
    let rt = rating_field(rating) as u128;
    let votes = votes_field(rating) as u128;
    let tt = title_type.spec_value() as u128;
    let genres = genres.spec_bits() as u128;
    assert(tt <= 12);
    assert((b >> 63u128) & (((1u128 << 5u128) - 1) as u128) == tt && (b >> 6u128) & (((1u128
        << 1u128) - 1) as u128) == h && (b >> 7u128) & (((1u128 << 1u128) - 1) as u128) == a && (b
        >> 8u128) & (((1u128 << 16u128) - 1) as u128) == runtime && (b >> 68u128) & (((1u128
        << 32u128) - 1) as u128) == genres) by (bit_vector)
        requires
            b == (h << 6u128) | (a << 7u128) | (runtime << 8u128) | (year << 24u128) | (rt
                << 33u128) | (votes << 40u128) | (tt << 63u128) | (genres << 68u128),
            h <= 1,
            a <= 1,
            runtime < 0x10000,
            year < 0x10000,
            rt < 0x100,
            votes < 0x800000,
            tt <= 12,
            genres < 0x100000000,
    ;
}


impl TitleHeader {
    /// Returns the 16 bytes of the header, least significant first.
    pub fn to_le_bytes(&self) -> (r: Vec<u8>)
        ensures
            r@ == spec_u128_to_le_bytes(self.spec_bits()),
            r@.len() == 16,
    {
        u128_to_le_bytes(self.0)
    }

    /// Reads a header from 16 bytes, least significant first.
    pub fn from_le_bytes(bytes: &[u8]) -> (r: TitleHeader)
        requires
            bytes@.len() == 16,
        ensures
            r.spec_bits() == spec_u128_from_le_bytes(bytes@),
    {
        TitleHeader(u128_from_le_bytes(bytes))
    }
}

} // verus!
