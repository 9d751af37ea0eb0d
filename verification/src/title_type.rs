//! The types of titles.

use vstd::prelude::*;
use vstd::utf8::encode_utf8;

use crate::bytes::bytes_eq;

verus! {

/// The types of a title.
#[derive(Debug, Clone, Copy, PartialEq, Eq, Structural, Hash)]
pub enum TitleType {
    VideoGame,
    Short,
    Video,
    Movie,
    TvShort,
    TvMovie,
    TvSpecial,
    TvEpisode,
    TvPilot,
    RadioEpisode,
    TvSeries,
    TvMiniSeries,
    RadioSeries,
}

impl TitleType {
    /// The position of the variant in the enumeration, from 0 to 12.
    pub open spec fn spec_value(self) -> u8 {
        match self {
            TitleType::VideoGame => 0,
            TitleType::Short => 1,
            TitleType::Video => 2,
            TitleType::Movie => 3,
            TitleType::TvShort => 4,
            TitleType::TvMovie => 5,
            TitleType::TvSpecial => 6,
            TitleType::TvEpisode => 7,
            TitleType::TvPilot => 8,
            TitleType::RadioEpisode => 9,
            TitleType::TvSeries => 10,
            TitleType::TvMiniSeries => 11,
            TitleType::RadioSeries => 12,
        }
    }

    /// The variant at the given position of the enumeration.
    pub open spec fn spec_from(value: u8) -> TitleType {
        if value == 0 {
            TitleType::VideoGame
        } else if value == 1 {
            TitleType::Short
        } else if value == 2 {
            TitleType::Video
        } else if value == 3 {
            TitleType::Movie
        } else if value == 4 {
            TitleType::TvShort
        } else if value == 5 {
            TitleType::TvMovie
        } else if value == 6 {
            TitleType::TvSpecial
        } else if value == 7 {
            TitleType::TvEpisode
        } else if value == 8 {
            TitleType::TvPilot
        } else if value == 9 {
            TitleType::RadioEpisode
        } else if value == 10 {
            TitleType::TvSeries
        } else if value == 11 {
            TitleType::TvMiniSeries
        } else {
            TitleType::RadioSeries
        }
    }

    /// The name under which the title type is displayed.
    pub open spec fn spec_name(self) -> Seq<char> {
        match self {
            TitleType::VideoGame => seq!['V', 'i', 'd', 'e', 'o', 'G', 'a', 'm', 'e'],
            TitleType::Short => seq!['S', 'h', 'o', 'r', 't', ' ', 'M', 'o', 'v', 'i', 'e'],
            TitleType::Video => seq!['V', 'i', 'd', 'e', 'o'],
            TitleType::Movie => seq!['M', 'o', 'v', 'i', 'e'],
            TitleType::TvShort => seq!['T', 'V', ' ', 'S', 'h', 'o', 'r', 't'],
            TitleType::TvMovie => seq!['T', 'V', ' ', 'M', 'o', 'v', 'i', 'e'],
            TitleType::TvSpecial => seq!['T', 'V', ' ', 'S', 'p', 'e', 'c', 'i', 'a', 'l'],
            TitleType::TvEpisode => seq!['T', 'v', 'E', 'p', 'i', 's', 'o', 'd', 'e'],
            TitleType::TvPilot => seq!['T', 'v', 'P', 'i', 'l', 'o', 't'],
            TitleType::RadioEpisode => seq!['R', 'a', 'd', 'i', 'o', 'E', 'p', 'i', 's', 'o', 'd', 'e'],
            TitleType::TvSeries => seq!['T', 'V', ' ', 'S', 'e', 'r', 'i', 'e', 's'],
            TitleType::TvMiniSeries => seq!['T', 'V', ' ', 'M', 'i', 'n', 'i', '-', 'S', 'e', 'r', 'i', 'e', 's'],
            TitleType::RadioSeries => seq!['R', 'a', 'd', 'i', 'o', ' ', 'S', 'e', 'r', 'i', 'e', 's'],
        }
    }

    /// The name under which the title type appears in the data set.
    pub open spec fn spec_parse_name(self) -> Seq<char> {
        match self {
            TitleType::VideoGame => seq!['v', 'i', 'd', 'e', 'o', 'G', 'a', 'm', 'e'],
            TitleType::Short => seq!['s', 'h', 'o', 'r', 't'],
            TitleType::Video => seq!['v', 'i', 'd', 'e', 'o'],
            TitleType::Movie => seq!['m', 'o', 'v', 'i', 'e'],
            TitleType::TvShort => seq!['t', 'v', 'S', 'h', 'o', 'r', 't'],
            TitleType::TvMovie => seq!['t', 'v', 'M', 'o', 'v', 'i', 'e'],
            TitleType::TvSpecial => seq!['t', 'v', 'S', 'p', 'e', 'c', 'i', 'a', 'l'],
            TitleType::TvEpisode => seq!['t', 'v', 'E', 'p', 'i', 's', 'o', 'd', 'e'],
            TitleType::TvPilot => seq!['t', 'v', 'P', 'i', 'l', 'o', 't'],
            TitleType::RadioEpisode => seq!['r', 'a', 'd', 'i', 'o', 'E', 'p', 'i', 's', 'o', 'd', 'e'],
            TitleType::TvSeries => seq!['t', 'v', 'S', 'e', 'r', 'i', 'e', 's'],
            TitleType::TvMiniSeries => seq!['t', 'v', 'M', 'i', 'n', 'i', 'S', 'e', 'r', 'i', 'e', 's'],
            TitleType::RadioSeries => seq!['r', 'a', 'd', 'i', 'o', 'S', 'e', 'r', 'i', 'e', 's'],
        }
    }

    /// Returns the position of the variant in the enumeration.
    pub fn value(&self) -> (r: u8)
        ensures
            r == self.spec_value(),
    {
        match self {
            TitleType::VideoGame => 0,
            TitleType::Short => 1,
            TitleType::Video => 2,
            TitleType::Movie => 3,
            TitleType::TvShort => 4,
            TitleType::TvMovie => 5,
            TitleType::TvSpecial => 6,
            TitleType::TvEpisode => 7,
            TitleType::TvPilot => 8,
            TitleType::RadioEpisode => 9,
            TitleType::TvSeries => 10,
            TitleType::TvMiniSeries => 11,
            TitleType::RadioSeries => 12,
        }
    }

    /// Converts a position of the enumeration into its variant.
    pub fn from(value: u8) -> (r: TitleType)
        requires
            value <= 12,
        ensures
            r == TitleType::spec_from(value),
            r.spec_value() == value,
    {
        if value == 0 {
            TitleType::VideoGame
        } else if value == 1 {
            TitleType::Short
        } else if value == 2 {
            TitleType::Video
        } else if value == 3 {
            TitleType::Movie
        } else if value == 4 {
            TitleType::TvShort
        } else if value == 5 {
            TitleType::TvMovie
        } else if value == 6 {
            TitleType::TvSpecial
        } else if value == 7 {
            TitleType::TvEpisode
        } else if value == 8 {
            TitleType::TvPilot
        } else if value == 9 {
            TitleType::RadioEpisode
        } else if value == 10 {
            TitleType::TvSeries
        } else if value == 11 {
            TitleType::TvMiniSeries
        } else {
            TitleType::RadioSeries
        }
    }

    /// Returns the human-readable name of the variant.
    pub fn name(&self) -> (r: &'static str)
        ensures
            r@ == self.spec_name(),
    {
        match self {
            TitleType::VideoGame => {
                proof {
                    reveal_strlit("VideoGame");
                }
                "VideoGame"
            },
            TitleType::Short => {
                proof {
                    reveal_strlit("Short Movie");
                }
                "Short Movie"
            },
            TitleType::Video => {
                proof {
                    reveal_strlit("Video");
                }
                "Video"
            },
            TitleType::Movie => {
                proof {
                    reveal_strlit("Movie");
                }
                "Movie"
            },
            TitleType::TvShort => {
                proof {
                    reveal_strlit("TV Short");
                }
                "TV Short"
            },
            TitleType::TvMovie => {
                proof {
                    reveal_strlit("TV Movie");
                }
                "TV Movie"
            },
            TitleType::TvSpecial => {
                proof {
                    reveal_strlit("TV Special");
                }
                "TV Special"
            },
            TitleType::TvEpisode => {
                proof {
                    reveal_strlit("TvEpisode");
                }
                "TvEpisode"
            },
            TitleType::TvPilot => {
                proof {
                    reveal_strlit("TvPilot");
                }
                "TvPilot"
            },
            TitleType::RadioEpisode => {
                proof {
                    reveal_strlit("RadioEpisode");
                }
                "RadioEpisode"
            },
            TitleType::TvSeries => {
                proof {
                    reveal_strlit("TV Series");
                }
                "TV Series"
            },
            TitleType::TvMiniSeries => {
                proof {
                    reveal_strlit("TV Mini-Series");
                }
                "TV Mini-Series"
            },
            TitleType::RadioSeries => {
                proof {
                    reveal_strlit("Radio Series");
                }
                "Radio Series"
            },
        }
    }

    /// Returns the name under which the variant appears in the data set.
    pub fn parse_name(&self) -> (r: &'static str)
        ensures
            r@ == self.spec_parse_name(),
    {
        match self {
            TitleType::VideoGame => {
                proof {
                    reveal_strlit("videoGame");
                }
                "videoGame"
            },
            TitleType::Short => {
                proof {
                    reveal_strlit("short");
                }
                "short"
            },
            TitleType::Video => {
                proof {
                    reveal_strlit("video");
                }
                "video"
            },
            TitleType::Movie => {
                proof {
                    reveal_strlit("movie");
                }
                "movie"
            },
            TitleType::TvShort => {
                proof {
                    reveal_strlit("tvShort");
                }
                "tvShort"
            },
            TitleType::TvMovie => {
                proof {
                    reveal_strlit("tvMovie");
                }
                "tvMovie"
            },
            TitleType::TvSpecial => {
                proof {
                    reveal_strlit("tvSpecial");
                }
                "tvSpecial"
            },
            TitleType::TvEpisode => {
                proof {
                    reveal_strlit("tvEpisode");
                }
                "tvEpisode"
            },
            TitleType::TvPilot => {
                proof {
                    reveal_strlit("tvPilot");
                }
                "tvPilot"
            },
            TitleType::RadioEpisode => {
                proof {
                    reveal_strlit("radioEpisode");
                }
                "radioEpisode"
            },
            TitleType::TvSeries => {
                proof {
                    reveal_strlit("tvSeries");
                }
                "tvSeries"
            },
            TitleType::TvMiniSeries => {
                proof {
                    reveal_strlit("tvMiniSeries");
                }
                "tvMiniSeries"
            },
            TitleType::RadioSeries => {
                proof {
                    reveal_strlit("radioSeries");
                }
                "radioSeries"
            },
        }
    }

    /// Whether the title type is one of the movie types.
    pub open spec fn spec_is_movie(self) -> bool {
        match self {
            TitleType::Short | TitleType::Video | TitleType::Movie | TitleType::TvShort
            | TitleType::TvMovie | TitleType::TvSpecial => true,
            _ => false,
        }
    }

    /// Whether the title type is one of the series types.
    pub open spec fn spec_is_series(self) -> bool {
        match self {
            TitleType::TvSeries | TitleType::TvMiniSeries => true,
            _ => false,
        }
    }

    /// Whether the title type refers to a movie.
    pub fn is_movie(&self) -> (r: bool)
        ensures
            r == self.spec_is_movie(),
    {
        match self {
            TitleType::VideoGame => false,
            TitleType::Short | TitleType::Video | TitleType::Movie | TitleType::TvShort
            | TitleType::TvMovie | TitleType::TvSpecial => true,
            TitleType::TvEpisode | TitleType::TvPilot | TitleType::RadioEpisode => false,
            TitleType::TvSeries | TitleType::TvMiniSeries => false,
            TitleType::RadioSeries => false,
        }
    }

    /// Whether the title type refers to a series.
    pub fn is_series(&self) -> (r: bool)
        ensures
            r == self.spec_is_series(),
    {
        match self {
            TitleType::VideoGame => false,
            TitleType::Short | TitleType::Video | TitleType::Movie | TitleType::TvShort
            | TitleType::TvMovie | TitleType::TvSpecial => false,
            TitleType::TvEpisode | TitleType::TvPilot | TitleType::RadioEpisode => false,
            TitleType::TvSeries | TitleType::TvMiniSeries => true,
            TitleType::RadioSeries => false,
        }
    }

    /// Parses a title type from the bytes under which the data set writes it.
    pub fn from_name(name: &[u8]) -> (r: Option<TitleType>)
        ensures
            forall|t: TitleType| #[trigger] title_type_name_bytes(t) == name@ <==> r == Some(t),
    {
        let mut i: u8 = 0;
        while i <= 12
            invariant
                i <= 13,
                forall|j: u8| j < i ==> title_type_name_bytes(#[trigger] TitleType::spec_from(j)) != name@,
            decreases 13 - i,
        {
            let t = TitleType::from(i);
            if bytes_eq(name, t.parse_name().as_bytes()) {
                proof {
                    assert forall|h: TitleType| #[trigger] title_type_name_bytes(h) == name@ implies h == t by {
                        lemma_title_type_name_injective(h, t);
                    }
                }
                return Some(t);
            }
            i += 1;
        }
        proof {
            assert forall|h: TitleType| #[trigger] title_type_name_bytes(h) != name@ by {
                lemma_title_type_value_roundtrip(h);
                assert(title_type_name_bytes(TitleType::spec_from(h.spec_value())) != name@);
            }
        }
        None
    }
}

/// The UTF-8 bytes under which the data set writes a title type.
pub open spec fn title_type_name_bytes(t: TitleType) -> Seq<u8> {
    encode_utf8(t.spec_parse_name())
}

/// The title type that the data set writes as the given text, if any.
pub open spec fn title_type_named(s: Seq<char>) -> Option<TitleType> {
    if s == TitleType::VideoGame.spec_parse_name() {
        Some(TitleType::VideoGame)
    } else if s == TitleType::Short.spec_parse_name() {
        Some(TitleType::Short)
    } else if s == TitleType::Video.spec_parse_name() {
        Some(TitleType::Video)
    } else if s == TitleType::Movie.spec_parse_name() {
        Some(TitleType::Movie)
    } else if s == TitleType::TvShort.spec_parse_name() {
        Some(TitleType::TvShort)
    } else if s == TitleType::TvMovie.spec_parse_name() {
        Some(TitleType::TvMovie)
    } else if s == TitleType::TvSpecial.spec_parse_name() {
        Some(TitleType::TvSpecial)
    } else if s == TitleType::TvEpisode.spec_parse_name() {
        Some(TitleType::TvEpisode)
    } else if s == TitleType::TvPilot.spec_parse_name() {
        Some(TitleType::TvPilot)
    } else if s == TitleType::RadioEpisode.spec_parse_name() {
        Some(TitleType::RadioEpisode)
    } else if s == TitleType::TvSeries.spec_parse_name() {
        Some(TitleType::TvSeries)
    } else if s == TitleType::TvMiniSeries.spec_parse_name() {
        Some(TitleType::TvMiniSeries)
    } else if s == TitleType::RadioSeries.spec_parse_name() {
        Some(TitleType::RadioSeries)
    } else {
        None
    }
}

/// Every variant is found again under its own name.
pub proof fn lemma_title_type_named(v: TitleType)
    ensures
        title_type_named(v.spec_parse_name()) == Some(v),
{
    match v {
        TitleType::VideoGame => {

        },
        TitleType::Short => {
            assert(TitleType::Short.spec_parse_name().len() != TitleType::VideoGame.spec_parse_name().len());
        },
        TitleType::Video => {
            assert(TitleType::Video.spec_parse_name().len() != TitleType::VideoGame.spec_parse_name().len());
            assert(TitleType::Video.spec_parse_name()[0] != TitleType::Short.spec_parse_name()[0]);
        },
        TitleType::Movie => {
            assert(TitleType::Movie.spec_parse_name().len() != TitleType::VideoGame.spec_parse_name().len());
            assert(TitleType::Movie.spec_parse_name()[0] != TitleType::Short.spec_parse_name()[0]);
            assert(TitleType::Movie.spec_parse_name()[0] != TitleType::Video.spec_parse_name()[0]);
        },
        TitleType::TvShort => {
            assert(TitleType::TvShort.spec_parse_name().len() != TitleType::VideoGame.spec_parse_name().len());
            assert(TitleType::TvShort.spec_parse_name().len() != TitleType::Short.spec_parse_name().len());
            assert(TitleType::TvShort.spec_parse_name().len() != TitleType::Video.spec_parse_name().len());
            assert(TitleType::TvShort.spec_parse_name().len() != TitleType::Movie.spec_parse_name().len());
        },
        TitleType::TvMovie => {
            assert(TitleType::TvMovie.spec_parse_name().len() != TitleType::VideoGame.spec_parse_name().len());
            assert(TitleType::TvMovie.spec_parse_name().len() != TitleType::Short.spec_parse_name().len());
            assert(TitleType::TvMovie.spec_parse_name().len() != TitleType::Video.spec_parse_name().len());
            assert(TitleType::TvMovie.spec_parse_name().len() != TitleType::Movie.spec_parse_name().len());
            assert(TitleType::TvMovie.spec_parse_name()[2] != TitleType::TvShort.spec_parse_name()[2]);
        },
        TitleType::TvSpecial => {
            assert(TitleType::TvSpecial.spec_parse_name()[0] != TitleType::VideoGame.spec_parse_name()[0]);
            assert(TitleType::TvSpecial.spec_parse_name().len() != TitleType::Short.spec_parse_name().len());
            assert(TitleType::TvSpecial.spec_parse_name().len() != TitleType::Video.spec_parse_name().len());
            assert(TitleType::TvSpecial.spec_parse_name().len() != TitleType::Movie.spec_parse_name().len());
            assert(TitleType::TvSpecial.spec_parse_name().len() != TitleType::TvShort.spec_parse_name().len());
            assert(TitleType::TvSpecial.spec_parse_name().len() != TitleType::TvMovie.spec_parse_name().len());
        },
        TitleType::TvEpisode => {
            assert(TitleType::TvEpisode.spec_parse_name()[0] != TitleType::VideoGame.spec_parse_name()[0]);
            assert(TitleType::TvEpisode.spec_parse_name().len() != TitleType::Short.spec_parse_name().len());
            assert(TitleType::TvEpisode.spec_parse_name().len() != TitleType::Video.spec_parse_name().len());
            assert(TitleType::TvEpisode.spec_parse_name().len() != TitleType::Movie.spec_parse_name().len());
            assert(TitleType::TvEpisode.spec_parse_name().len() != TitleType::TvShort.spec_parse_name().len());
            assert(TitleType::TvEpisode.spec_parse_name().len() != TitleType::TvMovie.spec_parse_name().len());
            assert(TitleType::TvEpisode.spec_parse_name()[2] != TitleType::TvSpecial.spec_parse_name()[2]);
        },
        TitleType::TvPilot => {
            assert(TitleType::TvPilot.spec_parse_name().len() != TitleType::VideoGame.spec_parse_name().len());
            assert(TitleType::TvPilot.spec_parse_name().len() != TitleType::Short.spec_parse_name().len());
            assert(TitleType::TvPilot.spec_parse_name().len() != TitleType::Video.spec_parse_name().len());
            assert(TitleType::TvPilot.spec_parse_name().len() != TitleType::Movie.spec_parse_name().len());
            assert(TitleType::TvPilot.spec_parse_name()[2] != TitleType::TvShort.spec_parse_name()[2]);
            assert(TitleType::TvPilot.spec_parse_name()[2] != TitleType::TvMovie.spec_parse_name()[2]);
            assert(TitleType::TvPilot.spec_parse_name().len() != TitleType::TvSpecial.spec_parse_name().len());
            assert(TitleType::TvPilot.spec_parse_name().len() != TitleType::TvEpisode.spec_parse_name().len());
        },
        TitleType::RadioEpisode => {
            assert(TitleType::RadioEpisode.spec_parse_name().len() != TitleType::VideoGame.spec_parse_name().len());
            assert(TitleType::RadioEpisode.spec_parse_name().len() != TitleType::Short.spec_parse_name().len());
            assert(TitleType::RadioEpisode.spec_parse_name().len() != TitleType::Video.spec_parse_name().len());
            assert(TitleType::RadioEpisode.spec_parse_name().len() != TitleType::Movie.spec_parse_name().len());
            assert(TitleType::RadioEpisode.spec_parse_name().len() != TitleType::TvShort.spec_parse_name().len());
            assert(TitleType::RadioEpisode.spec_parse_name().len() != TitleType::TvMovie.spec_parse_name().len());
            assert(TitleType::RadioEpisode.spec_parse_name().len() != TitleType::TvSpecial.spec_parse_name().len());
            assert(TitleType::RadioEpisode.spec_parse_name().len() != TitleType::TvEpisode.spec_parse_name().len());
            assert(TitleType::RadioEpisode.spec_parse_name().len() != TitleType::TvPilot.spec_parse_name().len());
        },
        TitleType::TvSeries => {
            assert(TitleType::TvSeries.spec_parse_name().len() != TitleType::VideoGame.spec_parse_name().len());
            assert(TitleType::TvSeries.spec_parse_name().len() != TitleType::Short.spec_parse_name().len());
            assert(TitleType::TvSeries.spec_parse_name().len() != TitleType::Video.spec_parse_name().len());
            assert(TitleType::TvSeries.spec_parse_name().len() != TitleType::Movie.spec_parse_name().len());
            assert(TitleType::TvSeries.spec_parse_name().len() != TitleType::TvShort.spec_parse_name().len());
            assert(TitleType::TvSeries.spec_parse_name().len() != TitleType::TvMovie.spec_parse_name().len());
            assert(TitleType::TvSeries.spec_parse_name().len() != TitleType::TvSpecial.spec_parse_name().len());
            assert(TitleType::TvSeries.spec_parse_name().len() != TitleType::TvEpisode.spec_parse_name().len());
            assert(TitleType::TvSeries.spec_parse_name().len() != TitleType::TvPilot.spec_parse_name().len());
            assert(TitleType::TvSeries.spec_parse_name().len() != TitleType::RadioEpisode.spec_parse_name().len());
        },
        TitleType::TvMiniSeries => {
            assert(TitleType::TvMiniSeries.spec_parse_name().len() != TitleType::VideoGame.spec_parse_name().len());
            assert(TitleType::TvMiniSeries.spec_parse_name().len() != TitleType::Short.spec_parse_name().len());
            assert(TitleType::TvMiniSeries.spec_parse_name().len() != TitleType::Video.spec_parse_name().len());
            assert(TitleType::TvMiniSeries.spec_parse_name().len() != TitleType::Movie.spec_parse_name().len());
            assert(TitleType::TvMiniSeries.spec_parse_name().len() != TitleType::TvShort.spec_parse_name().len());
            assert(TitleType::TvMiniSeries.spec_parse_name().len() != TitleType::TvMovie.spec_parse_name().len());
            assert(TitleType::TvMiniSeries.spec_parse_name().len() != TitleType::TvSpecial.spec_parse_name().len());
            assert(TitleType::TvMiniSeries.spec_parse_name().len() != TitleType::TvEpisode.spec_parse_name().len());
            assert(TitleType::TvMiniSeries.spec_parse_name().len() != TitleType::TvPilot.spec_parse_name().len());
            assert(TitleType::TvMiniSeries.spec_parse_name()[0] != TitleType::RadioEpisode.spec_parse_name()[0]);
            assert(TitleType::TvMiniSeries.spec_parse_name().len() != TitleType::TvSeries.spec_parse_name().len());
        },
        TitleType::RadioSeries => {
            assert(TitleType::RadioSeries.spec_parse_name().len() != TitleType::VideoGame.spec_parse_name().len());
            assert(TitleType::RadioSeries.spec_parse_name().len() != TitleType::Short.spec_parse_name().len());
            assert(TitleType::RadioSeries.spec_parse_name().len() != TitleType::Video.spec_parse_name().len());
            assert(TitleType::RadioSeries.spec_parse_name().len() != TitleType::Movie.spec_parse_name().len());
            assert(TitleType::RadioSeries.spec_parse_name().len() != TitleType::TvShort.spec_parse_name().len());
            assert(TitleType::RadioSeries.spec_parse_name().len() != TitleType::TvMovie.spec_parse_name().len());
            assert(TitleType::RadioSeries.spec_parse_name().len() != TitleType::TvSpecial.spec_parse_name().len());
            assert(TitleType::RadioSeries.spec_parse_name().len() != TitleType::TvEpisode.spec_parse_name().len());
            assert(TitleType::RadioSeries.spec_parse_name().len() != TitleType::TvPilot.spec_parse_name().len());
            assert(TitleType::RadioSeries.spec_parse_name().len() != TitleType::RadioEpisode.spec_parse_name().len());
            assert(TitleType::RadioSeries.spec_parse_name().len() != TitleType::TvSeries.spec_parse_name().len());
            assert(TitleType::RadioSeries.spec_parse_name().len() != TitleType::TvMiniSeries.spec_parse_name().len());
        },
    }
}

/// Converting a title type to its position and back gives the title type again.
pub proof fn lemma_title_type_value_roundtrip(t: TitleType)
    ensures
        TitleType::spec_from(t.spec_value()) == t,
        t.spec_value() <= 12,
{
}

/// Two title types written the same way in the data set are the same title type.
pub proof fn lemma_title_type_name_injective(t1: TitleType, t2: TitleType)
    ensures
        title_type_name_bytes(t1) == title_type_name_bytes(t2) ==> t1 == t2,
{
    lemma_title_type_named(t1);
    lemma_title_type_named(t2);
    vstd::utf8::encode_utf8_decode_utf8(t1.spec_parse_name());
    vstd::utf8::encode_utf8_decode_utf8(t2.spec_parse_name());
}

/// No title type is both a movie type and a series type.
pub proof fn lemma_movie_series_exclusive(t: TitleType)
    ensures
        !(t.spec_is_movie() && t.spec_is_series()),
{
}


/// The names of the title types are those of the IMDB data sets and of the tool's output: the
/// data set writes each type by its IMDB `titleType` name, and reading that name gives the
/// type back; each type is shown under its display name.
pub proof fn lemma_title_type_names()
    ensures
        forall|t: TitleType|
            #[trigger] t.spec_parse_name() == match t {
                TitleType::VideoGame => "videoGame"@,
                TitleType::Short => "short"@,
                TitleType::Video => "video"@,
                TitleType::Movie => "movie"@,
                TitleType::TvShort => "tvShort"@,
                TitleType::TvMovie => "tvMovie"@,
                TitleType::TvSpecial => "tvSpecial"@,
                TitleType::TvEpisode => "tvEpisode"@,
                TitleType::TvPilot => "tvPilot"@,
                TitleType::RadioEpisode => "radioEpisode"@,
                TitleType::TvSeries => "tvSeries"@,
                TitleType::TvMiniSeries => "tvMiniSeries"@,
                TitleType::RadioSeries => "radioSeries"@,
            },
        forall|t: TitleType|
            #[trigger] t.spec_name() == match t {
                TitleType::VideoGame => "VideoGame"@,
                TitleType::Short => "Short Movie"@,
                TitleType::Video => "Video"@,
                TitleType::Movie => "Movie"@,
                TitleType::TvShort => "TV Short"@,
                TitleType::TvMovie => "TV Movie"@,
                TitleType::TvSpecial => "TV Special"@,
                TitleType::TvEpisode => "TvEpisode"@,
                TitleType::TvPilot => "TvPilot"@,
                TitleType::RadioEpisode => "RadioEpisode"@,
                TitleType::TvSeries => "TV Series"@,
                TitleType::TvMiniSeries => "TV Mini-Series"@,
                TitleType::RadioSeries => "Radio Series"@,
            },
        forall|t: TitleType| title_type_named(#[trigger] t.spec_parse_name()) == Some(t),
{
    reveal_strlit("Movie");
    reveal_strlit("Radio Series");
    reveal_strlit("RadioEpisode");
    reveal_strlit("Short Movie");
    reveal_strlit("TV Mini-Series");
    reveal_strlit("TV Movie");
    reveal_strlit("TV Series");
    reveal_strlit("TV Short");
    reveal_strlit("TV Special");
    reveal_strlit("TvEpisode");
    reveal_strlit("TvPilot");
    reveal_strlit("Video");
    reveal_strlit("VideoGame");
    reveal_strlit("movie");
    reveal_strlit("radioEpisode");
    reveal_strlit("radioSeries");
    reveal_strlit("short");
    reveal_strlit("tvEpisode");
    reveal_strlit("tvMiniSeries");
    reveal_strlit("tvMovie");
    reveal_strlit("tvPilot");
    reveal_strlit("tvSeries");
    reveal_strlit("tvShort");
    reveal_strlit("tvSpecial");
    reveal_strlit("video");
    reveal_strlit("videoGame");
    assert forall|t: TitleType| title_type_named(#[trigger] t.spec_parse_name()) == Some(t) by {
        lemma_title_type_named(t);
    }
}


/// The title types imported as movies are those that the data set names `short`, `video`,
/// `movie`, `tvShort`, `tvMovie` and `tvSpecial`; those imported as series are those it names
/// `tvSeries` and `tvMiniSeries`.
pub proof fn lemma_imported_types()
    ensures
        forall|t: TitleType|
            #[trigger] t.spec_is_movie() <==> (t.spec_parse_name() == "short"@ || t.spec_parse_name()
                == "video"@ || t.spec_parse_name() == "movie"@ || t.spec_parse_name() == "tvShort"@
                || t.spec_parse_name() == "tvMovie"@ || t.spec_parse_name() == "tvSpecial"@),
        forall|t: TitleType|
            #[trigger] t.spec_is_series() <==> (t.spec_parse_name() == "tvSeries"@
                || t.spec_parse_name() == "tvMiniSeries"@),
{
    lemma_title_type_names();
    assert forall|t: TitleType| #[trigger] t.spec_is_movie() <==> (t.spec_parse_name() == "short"@
        || t.spec_parse_name() == "video"@ || t.spec_parse_name() == "movie"@
        || t.spec_parse_name() == "tvShort"@ || t.spec_parse_name() == "tvMovie"@
        || t.spec_parse_name() == "tvSpecial"@) by {
        lemma_title_type_named(t);
        lemma_title_type_named(TitleType::Short);
        lemma_title_type_named(TitleType::Video);
        lemma_title_type_named(TitleType::Movie);
        lemma_title_type_named(TitleType::TvShort);
        lemma_title_type_named(TitleType::TvMovie);
        lemma_title_type_named(TitleType::TvSpecial);
    }
    assert forall|t: TitleType| #[trigger] t.spec_is_series() <==> (t.spec_parse_name()
        == "tvSeries"@ || t.spec_parse_name() == "tvMiniSeries"@) by {
        lemma_title_type_named(t);
        lemma_title_type_named(TitleType::TvSeries);
        lemma_title_type_named(TitleType::TvMiniSeries);
    }
}

} // verus!
