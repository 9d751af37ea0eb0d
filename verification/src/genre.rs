//! Title genres and sets of genres.

use vstd::prelude::*;
use vstd::utf8::encode_utf8;

use crate::bytes::bytes_eq;

verus! {

/// The genres a title can be associated with.
#[derive(Debug, Clone, Copy, PartialEq, Eq, Structural, Hash)]
pub enum Genre {
    Action,
    Adult,
    Adventure,
    Animation,
    Biography,
    Comedy,
    Crime,
    Documentary,
    Drama,
    Family,
    Fantasy,
    FilmNoir,
    GameShow,
    History,
    Horror,
    Music,
    Musical,
    Mystery,
    News,
    RealityTv,
    Romance,
    SciFi,
    Short,
    Sport,
    TalkShow,
    Thriller,
    War,
    Western,
    Experimental,
}

impl Genre {
    /// The position of the variant in the enumeration, from 0 to 28.
    pub open spec fn spec_value(self) -> u8 {
        match self {
            Genre::Action => 0,
            Genre::Adult => 1,
            Genre::Adventure => 2,
            Genre::Animation => 3,
            Genre::Biography => 4,
            Genre::Comedy => 5,
            Genre::Crime => 6,
            Genre::Documentary => 7,
            Genre::Drama => 8,
            Genre::Family => 9,
            Genre::Fantasy => 10,
            Genre::FilmNoir => 11,
            Genre::GameShow => 12,
            Genre::History => 13,
            Genre::Horror => 14,
            Genre::Music => 15,
            Genre::Musical => 16,
            Genre::Mystery => 17,
            Genre::News => 18,
            Genre::RealityTv => 19,
            Genre::Romance => 20,
            Genre::SciFi => 21,
            Genre::Short => 22,
            Genre::Sport => 23,
            Genre::TalkShow => 24,
            Genre::Thriller => 25,
            Genre::War => 26,
            Genre::Western => 27,
            Genre::Experimental => 28,
        }
    }

    /// The variant at the given position of the enumeration.
    pub open spec fn spec_from(value: u8) -> Genre {
        if value == 0 {
            Genre::Action
        } else if value == 1 {
            Genre::Adult
        } else if value == 2 {
            Genre::Adventure
        } else if value == 3 {
            Genre::Animation
        } else if value == 4 {
            Genre::Biography
        } else if value == 5 {
            Genre::Comedy
        } else if value == 6 {
            Genre::Crime
        } else if value == 7 {
            Genre::Documentary
        } else if value == 8 {
            Genre::Drama
        } else if value == 9 {
            Genre::Family
        } else if value == 10 {
            Genre::Fantasy
        } else if value == 11 {
            Genre::FilmNoir
        } else if value == 12 {
            Genre::GameShow
        } else if value == 13 {
            Genre::History
        } else if value == 14 {
            Genre::Horror
        } else if value == 15 {
            Genre::Music
        } else if value == 16 {
            Genre::Musical
        } else if value == 17 {
            Genre::Mystery
        } else if value == 18 {
            Genre::News
        } else if value == 19 {
            Genre::RealityTv
        } else if value == 20 {
            Genre::Romance
        } else if value == 21 {
            Genre::SciFi
        } else if value == 22 {
            Genre::Short
        } else if value == 23 {
            Genre::Sport
        } else if value == 24 {
            Genre::TalkShow
        } else if value == 25 {
            Genre::Thriller
        } else if value == 26 {
            Genre::War
        } else if value == 27 {
            Genre::Western
        } else {
            Genre::Experimental
        }
    }

    /// The name of the genre, as the data set writes it and as it is displayed.
    pub open spec fn spec_name(self) -> Seq<char> {
        match self {
            Genre::Action => seq!['A', 'c', 't', 'i', 'o', 'n'],
            Genre::Adult => seq!['A', 'd', 'u', 'l', 't'],
            Genre::Adventure => seq!['A', 'd', 'v', 'e', 'n', 't', 'u', 'r', 'e'],
            Genre::Animation => seq!['A', 'n', 'i', 'm', 'a', 't', 'i', 'o', 'n'],
            Genre::Biography => seq!['B', 'i', 'o', 'g', 'r', 'a', 'p', 'h', 'y'],
            Genre::Comedy => seq!['C', 'o', 'm', 'e', 'd', 'y'],
            Genre::Crime => seq!['C', 'r', 'i', 'm', 'e'],
            Genre::Documentary => seq!['D', 'o', 'c', 'u', 'm', 'e', 'n', 't', 'a', 'r', 'y'],
            Genre::Drama => seq!['D', 'r', 'a', 'm', 'a'],
            Genre::Family => seq!['F', 'a', 'm', 'i', 'l', 'y'],
            Genre::Fantasy => seq!['F', 'a', 'n', 't', 'a', 's', 'y'],
            Genre::FilmNoir => seq!['F', 'i', 'l', 'm', '-', 'N', 'o', 'i', 'r'],
            Genre::GameShow => seq!['G', 'a', 'm', 'e', '-', 'S', 'h', 'o', 'w'],
            Genre::History => seq!['H', 'i', 's', 't', 'o', 'r', 'y'],
            Genre::Horror => seq!['H', 'o', 'r', 'r', 'o', 'r'],
            Genre::Music => seq!['M', 'u', 's', 'i', 'c'],
            Genre::Musical => seq!['M', 'u', 's', 'i', 'c', 'a', 'l'],
            Genre::Mystery => seq!['M', 'y', 's', 't', 'e', 'r', 'y'],
            Genre::News => seq!['N', 'e', 'w', 's'],
            Genre::RealityTv => seq!['R', 'e', 'a', 'l', 'i', 't', 'y', '-', 'T', 'V'],
            Genre::Romance => seq!['R', 'o', 'm', 'a', 'n', 'c', 'e'],
            Genre::SciFi => seq!['S', 'c', 'i', '-', 'F', 'i'],
            Genre::Short => seq!['S', 'h', 'o', 'r', 't'],
            Genre::Sport => seq!['S', 'p', 'o', 'r', 't'],
            Genre::TalkShow => seq!['T', 'a', 'l', 'k', '-', 'S', 'h', 'o', 'w'],
            Genre::Thriller => seq!['T', 'h', 'r', 'i', 'l', 'l', 'e', 'r'],
            Genre::War => seq!['W', 'a', 'r'],
            Genre::Western => seq!['W', 'e', 's', 't', 'e', 'r', 'n'],
            Genre::Experimental => seq!['E', 'x', 'p', 'e', 'r', 'i', 'm', 'e', 'n', 't', 'a', 'l'],
        }
    }

    /// Returns the position of the variant in the enumeration.
    pub fn value(&self) -> (r: u8)
        ensures
            r == self.spec_value(),
    {
        match self {
            Genre::Action => 0,
            Genre::Adult => 1,
            Genre::Adventure => 2,
            Genre::Animation => 3,
            Genre::Biography => 4,
            Genre::Comedy => 5,
            Genre::Crime => 6,
            Genre::Documentary => 7,
            Genre::Drama => 8,
            Genre::Family => 9,
            Genre::Fantasy => 10,
            Genre::FilmNoir => 11,
            Genre::GameShow => 12,
            Genre::History => 13,
            Genre::Horror => 14,
            Genre::Music => 15,
            Genre::Musical => 16,
            Genre::Mystery => 17,
            Genre::News => 18,
            Genre::RealityTv => 19,
            Genre::Romance => 20,
            Genre::SciFi => 21,
            Genre::Short => 22,
            Genre::Sport => 23,
            Genre::TalkShow => 24,
            Genre::Thriller => 25,
            Genre::War => 26,
            Genre::Western => 27,
            Genre::Experimental => 28,
        }
    }

    /// Converts a position of the enumeration into its variant.
    pub fn from(value: u8) -> (r: Genre)
        requires
            value <= 28,
        ensures
            r == Genre::spec_from(value),
            r.spec_value() == value,
    {
        if value == 0 {
            Genre::Action
        } else if value == 1 {
            Genre::Adult
        } else if value == 2 {
            Genre::Adventure
        } else if value == 3 {
            Genre::Animation
        } else if value == 4 {
            Genre::Biography
        } else if value == 5 {
            Genre::Comedy
        } else if value == 6 {
            Genre::Crime
        } else if value == 7 {
            Genre::Documentary
        } else if value == 8 {
            Genre::Drama
        } else if value == 9 {
            Genre::Family
        } else if value == 10 {
            Genre::Fantasy
        } else if value == 11 {
            Genre::FilmNoir
        } else if value == 12 {
            Genre::GameShow
        } else if value == 13 {
            Genre::History
        } else if value == 14 {
            Genre::Horror
        } else if value == 15 {
            Genre::Music
        } else if value == 16 {
            Genre::Musical
        } else if value == 17 {
            Genre::Mystery
        } else if value == 18 {
            Genre::News
        } else if value == 19 {
            Genre::RealityTv
        } else if value == 20 {
            Genre::Romance
        } else if value == 21 {
            Genre::SciFi
        } else if value == 22 {
            Genre::Short
        } else if value == 23 {
            Genre::Sport
        } else if value == 24 {
            Genre::TalkShow
        } else if value == 25 {
            Genre::Thriller
        } else if value == 26 {
            Genre::War
        } else if value == 27 {
            Genre::Western
        } else {
            Genre::Experimental
        }
    }

    /// Returns the human-readable name of the variant.
    pub fn name(&self) -> (r: &'static str)
        ensures
            r@ == self.spec_name(),
    {
        match self {
            Genre::Action => {
                proof {
                    reveal_strlit("Action");
                }
                "Action"
            },
            Genre::Adult => {
                proof {
                    reveal_strlit("Adult");
                }
                "Adult"
            },
            Genre::Adventure => {
                proof {
                    reveal_strlit("Adventure");
                }
                "Adventure"
            },
            Genre::Animation => {
                proof {
                    reveal_strlit("Animation");
                }
                "Animation"
            },
            Genre::Biography => {
                proof {
                    reveal_strlit("Biography");
                }
                "Biography"
            },
            Genre::Comedy => {
                proof {
                    reveal_strlit("Comedy");
                }
                "Comedy"
            },
            Genre::Crime => {
                proof {
                    reveal_strlit("Crime");
                }
                "Crime"
            },
            Genre::Documentary => {
                proof {
                    reveal_strlit("Documentary");
                }
                "Documentary"
            },
            Genre::Drama => {
                proof {
                    reveal_strlit("Drama");
                }
                "Drama"
            },
            Genre::Family => {
                proof {
                    reveal_strlit("Family");
                }
                "Family"
            },
            Genre::Fantasy => {
                proof {
                    reveal_strlit("Fantasy");
                }
                "Fantasy"
            },
            Genre::FilmNoir => {
                proof {
                    reveal_strlit("Film-Noir");
                }
                "Film-Noir"
            },
            Genre::GameShow => {
                proof {
                    reveal_strlit("Game-Show");
                }
                "Game-Show"
            },
            Genre::History => {
                proof {
                    reveal_strlit("History");
                }
                "History"
            },
            Genre::Horror => {
                proof {
                    reveal_strlit("Horror");
                }
                "Horror"
            },
            Genre::Music => {
                proof {
                    reveal_strlit("Music");
                }
                "Music"
            },
            Genre::Musical => {
                proof {
                    reveal_strlit("Musical");
                }
                "Musical"
            },
            Genre::Mystery => {
                proof {
                    reveal_strlit("Mystery");
                }
                "Mystery"
            },
            Genre::News => {
                proof {
                    reveal_strlit("News");
                }
                "News"
            },
            Genre::RealityTv => {
                proof {
                    reveal_strlit("Reality-TV");
                }
                "Reality-TV"
            },
            Genre::Romance => {
                proof {
                    reveal_strlit("Romance");
                }
                "Romance"
            },
            Genre::SciFi => {
                proof {
                    reveal_strlit("Sci-Fi");
                }
                "Sci-Fi"
            },
            Genre::Short => {
                proof {
                    reveal_strlit("Short");
                }
                "Short"
            },
            Genre::Sport => {
                proof {
                    reveal_strlit("Sport");
                }
                "Sport"
            },
            Genre::TalkShow => {
                proof {
                    reveal_strlit("Talk-Show");
                }
                "Talk-Show"
            },
            Genre::Thriller => {
                proof {
                    reveal_strlit("Thriller");
                }
                "Thriller"
            },
            Genre::War => {
                proof {
                    reveal_strlit("War");
                }
                "War"
            },
            Genre::Western => {
                proof {
                    reveal_strlit("Western");
                }
                "Western"
            },
            Genre::Experimental => {
                proof {
                    reveal_strlit("Experimental");
                }
                "Experimental"
            },
        }
    }


    /// The largest position of a genre in the enumeration.
    pub fn max() -> (r: u8)
        ensures
            r == 28,
            r == Genre::Experimental.spec_value(),
            forall|g: Genre| #[trigger] g.spec_value() <= r,
    {
        28
    }
}

/// The UTF-8 bytes of a genre's name.
pub open spec fn genre_name_bytes(g: Genre) -> Seq<u8> {
    encode_utf8(g.spec_name())
}

/// The genre whose name is the given text, if any.
pub open spec fn genre_named(s: Seq<char>) -> Option<Genre> {
    if s == Genre::Action.spec_name() {
        Some(Genre::Action)
    } else if s == Genre::Adult.spec_name() {
        Some(Genre::Adult)
    } else if s == Genre::Adventure.spec_name() {
        Some(Genre::Adventure)
    } else if s == Genre::Animation.spec_name() {
        Some(Genre::Animation)
    } else if s == Genre::Biography.spec_name() {
        Some(Genre::Biography)
    } else if s == Genre::Comedy.spec_name() {
        Some(Genre::Comedy)
    } else if s == Genre::Crime.spec_name() {
        Some(Genre::Crime)
    } else if s == Genre::Documentary.spec_name() {
        Some(Genre::Documentary)
    } else if s == Genre::Drama.spec_name() {
        Some(Genre::Drama)
    } else if s == Genre::Family.spec_name() {
        Some(Genre::Family)
    } else if s == Genre::Fantasy.spec_name() {
        Some(Genre::Fantasy)
    } else if s == Genre::FilmNoir.spec_name() {
        Some(Genre::FilmNoir)
    } else if s == Genre::GameShow.spec_name() {
        Some(Genre::GameShow)
    } else if s == Genre::History.spec_name() {
        Some(Genre::History)
    } else if s == Genre::Horror.spec_name() {
        Some(Genre::Horror)
    } else if s == Genre::Music.spec_name() {
        Some(Genre::Music)
    } else if s == Genre::Musical.spec_name() {
        Some(Genre::Musical)
    } else if s == Genre::Mystery.spec_name() {
        Some(Genre::Mystery)
    } else if s == Genre::News.spec_name() {
        Some(Genre::News)
    } else if s == Genre::RealityTv.spec_name() {
        Some(Genre::RealityTv)
    } else if s == Genre::Romance.spec_name() {
        Some(Genre::Romance)
    } else if s == Genre::SciFi.spec_name() {
        Some(Genre::SciFi)
    } else if s == Genre::Short.spec_name() {
        Some(Genre::Short)
    } else if s == Genre::Sport.spec_name() {
        Some(Genre::Sport)
    } else if s == Genre::TalkShow.spec_name() {
        Some(Genre::TalkShow)
    } else if s == Genre::Thriller.spec_name() {
        Some(Genre::Thriller)
    } else if s == Genre::War.spec_name() {
        Some(Genre::War)
    } else if s == Genre::Western.spec_name() {
        Some(Genre::Western)
    } else if s == Genre::Experimental.spec_name() {
        Some(Genre::Experimental)
    } else {
        None
    }
}

/// Every variant is found again under its own name.
pub proof fn lemma_genre_named(v: Genre)
    ensures
        genre_named(v.spec_name()) == Some(v),
{
    match v {
        Genre::Action => {

        },
        Genre::Adult => {
            assert(Genre::Adult.spec_name().len() != Genre::Action.spec_name().len());
        },
        Genre::Adventure => {
            assert(Genre::Adventure.spec_name().len() != Genre::Action.spec_name().len());
            assert(Genre::Adventure.spec_name().len() != Genre::Adult.spec_name().len());
        },
        Genre::Animation => {
            assert(Genre::Animation.spec_name().len() != Genre::Action.spec_name().len());
            assert(Genre::Animation.spec_name().len() != Genre::Adult.spec_name().len());
            assert(Genre::Animation.spec_name()[1] != Genre::Adventure.spec_name()[1]);
        },
        Genre::Biography => {
            assert(Genre::Biography.spec_name().len() != Genre::Action.spec_name().len());
            assert(Genre::Biography.spec_name().len() != Genre::Adult.spec_name().len());
            assert(Genre::Biography.spec_name()[0] != Genre::Adventure.spec_name()[0]);
            assert(Genre::Biography.spec_name()[0] != Genre::Animation.spec_name()[0]);
        },
        Genre::Comedy => {
            assert(Genre::Comedy.spec_name()[0] != Genre::Action.spec_name()[0]);
            assert(Genre::Comedy.spec_name().len() != Genre::Adult.spec_name().len());
            assert(Genre::Comedy.spec_name().len() != Genre::Adventure.spec_name().len());
            assert(Genre::Comedy.spec_name().len() != Genre::Animation.spec_name().len());
            assert(Genre::Comedy.spec_name().len() != Genre::Biography.spec_name().len());
        },
        Genre::Crime => {
            assert(Genre::Crime.spec_name().len() != Genre::Action.spec_name().len());
            assert(Genre::Crime.spec_name()[0] != Genre::Adult.spec_name()[0]);
            assert(Genre::Crime.spec_name().len() != Genre::Adventure.spec_name().len());
            assert(Genre::Crime.spec_name().len() != Genre::Animation.spec_name().len());
            assert(Genre::Crime.spec_name().len() != Genre::Biography.spec_name().len());
            assert(Genre::Crime.spec_name().len() != Genre::Comedy.spec_name().len());
        },
        Genre::Documentary => {
            assert(Genre::Documentary.spec_name().len() != Genre::Action.spec_name().len());
            assert(Genre::Documentary.spec_name().len() != Genre::Adult.spec_name().len());
            assert(Genre::Documentary.spec_name().len() != Genre::Adventure.spec_name().len());
            assert(Genre::Documentary.spec_name().len() != Genre::Animation.spec_name().len());
            assert(Genre::Documentary.spec_name().len() != Genre::Biography.spec_name().len());
            assert(Genre::Documentary.spec_name().len() != Genre::Comedy.spec_name().len());
            assert(Genre::Documentary.spec_name().len() != Genre::Crime.spec_name().len());
        },
        Genre::Drama => {
            assert(Genre::Drama.spec_name().len() != Genre::Action.spec_name().len());
            assert(Genre::Drama.spec_name()[0] != Genre::Adult.spec_name()[0]);
            assert(Genre::Drama.spec_name().len() != Genre::Adventure.spec_name().len());
            assert(Genre::Drama.spec_name().len() != Genre::Animation.spec_name().len());
            assert(Genre::Drama.spec_name().len() != Genre::Biography.spec_name().len());
            assert(Genre::Drama.spec_name().len() != Genre::Comedy.spec_name().len());
            assert(Genre::Drama.spec_name()[0] != Genre::Crime.spec_name()[0]);
            assert(Genre::Drama.spec_name().len() != Genre::Documentary.spec_name().len());
        },
        Genre::Family => {
            assert(Genre::Family.spec_name()[0] != Genre::Action.spec_name()[0]);
            assert(Genre::Family.spec_name().len() != Genre::Adult.spec_name().len());
            assert(Genre::Family.spec_name().len() != Genre::Adventure.spec_name().len());
            assert(Genre::Family.spec_name().len() != Genre::Animation.spec_name().len());
            assert(Genre::Family.spec_name().len() != Genre::Biography.spec_name().len());
            assert(Genre::Family.spec_name()[0] != Genre::Comedy.spec_name()[0]);
            assert(Genre::Family.spec_name().len() != Genre::Crime.spec_name().len());
            assert(Genre::Family.spec_name().len() != Genre::Documentary.spec_name().len());
            assert(Genre::Family.spec_name().len() != Genre::Drama.spec_name().len());
        },
        Genre::Fantasy => {
            assert(Genre::Fantasy.spec_name().len() != Genre::Action.spec_name().len());
            assert(Genre::Fantasy.spec_name().len() != Genre::Adult.spec_name().len());
            assert(Genre::Fantasy.spec_name().len() != Genre::Adventure.spec_name().len());
            assert(Genre::Fantasy.spec_name().len() != Genre::Animation.spec_name().len());
            assert(Genre::Fantasy.spec_name().len() != Genre::Biography.spec_name().len());
            assert(Genre::Fantasy.spec_name().len() != Genre::Comedy.spec_name().len());
            assert(Genre::Fantasy.spec_name().len() != Genre::Crime.spec_name().len());
            assert(Genre::Fantasy.spec_name().len() != Genre::Documentary.spec_name().len());
            assert(Genre::Fantasy.spec_name().len() != Genre::Drama.spec_name().len());
            assert(Genre::Fantasy.spec_name().len() != Genre::Family.spec_name().len());
        },
        Genre::FilmNoir => {
            assert(Genre::FilmNoir.spec_name().len() != Genre::Action.spec_name().len());
            assert(Genre::FilmNoir.spec_name().len() != Genre::Adult.spec_name().len());
            assert(Genre::FilmNoir.spec_name()[0] != Genre::Adventure.spec_name()[0]);
            assert(Genre::FilmNoir.spec_name()[0] != Genre::Animation.spec_name()[0]);
            assert(Genre::FilmNoir.spec_name()[0] != Genre::Biography.spec_name()[0]);
            assert(Genre::FilmNoir.spec_name().len() != Genre::Comedy.spec_name().len());
            assert(Genre::FilmNoir.spec_name().len() != Genre::Crime.spec_name().len());
            assert(Genre::FilmNoir.spec_name().len() != Genre::Documentary.spec_name().len());
            assert(Genre::FilmNoir.spec_name().len() != Genre::Drama.spec_name().len());
            assert(Genre::FilmNoir.spec_name().len() != Genre::Family.spec_name().len());
            assert(Genre::FilmNoir.spec_name().len() != Genre::Fantasy.spec_name().len());
        },
        Genre::GameShow => {
            assert(Genre::GameShow.spec_name().len() != Genre::Action.spec_name().len());
            assert(Genre::GameShow.spec_name().len() != Genre::Adult.spec_name().len());
            assert(Genre::GameShow.spec_name()[0] != Genre::Adventure.spec_name()[0]);
            assert(Genre::GameShow.spec_name()[0] != Genre::Animation.spec_name()[0]);
            assert(Genre::GameShow.spec_name()[0] != Genre::Biography.spec_name()[0]);
            assert(Genre::GameShow.spec_name().len() != Genre::Comedy.spec_name().len());
            assert(Genre::GameShow.spec_name().len() != Genre::Crime.spec_name().len());
            assert(Genre::GameShow.spec_name().len() != Genre::Documentary.spec_name().len());
            assert(Genre::GameShow.spec_name().len() != Genre::Drama.spec_name().len());
            assert(Genre::GameShow.spec_name().len() != Genre::Family.spec_name().len());
            assert(Genre::GameShow.spec_name().len() != Genre::Fantasy.spec_name().len());
            assert(Genre::GameShow.spec_name()[0] != Genre::FilmNoir.spec_name()[0]);
        },
        Genre::History => {
            assert(Genre::History.spec_name().len() != Genre::Action.spec_name().len());
            assert(Genre::History.spec_name().len() != Genre::Adult.spec_name().len());
            assert(Genre::History.spec_name().len() != Genre::Adventure.spec_name().len());
            assert(Genre::History.spec_name().len() != Genre::Animation.spec_name().len());
            assert(Genre::History.spec_name().len() != Genre::Biography.spec_name().len());
            assert(Genre::History.spec_name().len() != Genre::Comedy.spec_name().len());
            assert(Genre::History.spec_name().len() != Genre::Crime.spec_name().len());
            assert(Genre::History.spec_name().len() != Genre::Documentary.spec_name().len());
            assert(Genre::History.spec_name().len() != Genre::Drama.spec_name().len());
            assert(Genre::History.spec_name().len() != Genre::Family.spec_name().len());
            assert(Genre::History.spec_name()[0] != Genre::Fantasy.spec_name()[0]);
            assert(Genre::History.spec_name().len() != Genre::FilmNoir.spec_name().len());
            assert(Genre::History.spec_name().len() != Genre::GameShow.spec_name().len());
        },
        Genre::Horror => {
            assert(Genre::Horror.spec_name()[0] != Genre::Action.spec_name()[0]);
            assert(Genre::Horror.spec_name().len() != Genre::Adult.spec_name().len());
            assert(Genre::Horror.spec_name().len() != Genre::Adventure.spec_name().len());
            assert(Genre::Horror.spec_name().len() != Genre::Animation.spec_name().len());
            assert(Genre::Horror.spec_name().len() != Genre::Biography.spec_name().len());
            assert(Genre::Horror.spec_name()[0] != Genre::Comedy.spec_name()[0]);
            assert(Genre::Horror.spec_name().len() != Genre::Crime.spec_name().len());
            assert(Genre::Horror.spec_name().len() != Genre::Documentary.spec_name().len());
            assert(Genre::Horror.spec_name().len() != Genre::Drama.spec_name().len());
            assert(Genre::Horror.spec_name()[0] != Genre::Family.spec_name()[0]);
            assert(Genre::Horror.spec_name().len() != Genre::Fantasy.spec_name().len());
            assert(Genre::Horror.spec_name().len() != Genre::FilmNoir.spec_name().len());
            assert(Genre::Horror.spec_name().len() != Genre::GameShow.spec_name().len());
            assert(Genre::Horror.spec_name().len() != Genre::History.spec_name().len());
        },
        Genre::Music => {
            assert(Genre::Music.spec_name().len() != Genre::Action.spec_name().len());
            assert(Genre::Music.spec_name()[0] != Genre::Adult.spec_name()[0]);
            assert(Genre::Music.spec_name().len() != Genre::Adventure.spec_name().len());
            assert(Genre::Music.spec_name().len() != Genre::Animation.spec_name().len());
            assert(Genre::Music.spec_name().len() != Genre::Biography.spec_name().len());
            assert(Genre::Music.spec_name().len() != Genre::Comedy.spec_name().len());
            assert(Genre::Music.spec_name()[0] != Genre::Crime.spec_name()[0]);
            assert(Genre::Music.spec_name().len() != Genre::Documentary.spec_name().len());
            assert(Genre::Music.spec_name()[0] != Genre::Drama.spec_name()[0]);
            assert(Genre::Music.spec_name().len() != Genre::Family.spec_name().len());
            assert(Genre::Music.spec_name().len() != Genre::Fantasy.spec_name().len());
            assert(Genre::Music.spec_name().len() != Genre::FilmNoir.spec_name().len());
            assert(Genre::Music.spec_name().len() != Genre::GameShow.spec_name().len());
            assert(Genre::Music.spec_name().len() != Genre::History.spec_name().len());
            assert(Genre::Music.spec_name().len() != Genre::Horror.spec_name().len());
        },
        Genre::Musical => {
            assert(Genre::Musical.spec_name().len() != Genre::Action.spec_name().len());
            assert(Genre::Musical.spec_name().len() != Genre::Adult.spec_name().len());
            assert(Genre::Musical.spec_name().len() != Genre::Adventure.spec_name().len());
            assert(Genre::Musical.spec_name().len() != Genre::Animation.spec_name().len());
            assert(Genre::Musical.spec_name().len() != Genre::Biography.spec_name().len());
            assert(Genre::Musical.spec_name().len() != Genre::Comedy.spec_name().len());
            assert(Genre::Musical.spec_name().len() != Genre::Crime.spec_name().len());
            assert(Genre::Musical.spec_name().len() != Genre::Documentary.spec_name().len());
            assert(Genre::Musical.spec_name().len() != Genre::Drama.spec_name().len());
            assert(Genre::Musical.spec_name().len() != Genre::Family.spec_name().len());
            assert(Genre::Musical.spec_name()[0] != Genre::Fantasy.spec_name()[0]);
            assert(Genre::Musical.spec_name().len() != Genre::FilmNoir.spec_name().len());
            assert(Genre::Musical.spec_name().len() != Genre::GameShow.spec_name().len());
            assert(Genre::Musical.spec_name()[0] != Genre::History.spec_name()[0]);
            assert(Genre::Musical.spec_name().len() != Genre::Horror.spec_name().len());
            assert(Genre::Musical.spec_name().len() != Genre::Music.spec_name().len());
        },
        Genre::Mystery => {
            assert(Genre::Mystery.spec_name().len() != Genre::Action.spec_name().len());
            assert(Genre::Mystery.spec_name().len() != Genre::Adult.spec_name().len());
            assert(Genre::Mystery.spec_name().len() != Genre::Adventure.spec_name().len());
            assert(Genre::Mystery.spec_name().len() != Genre::Animation.spec_name().len());
            assert(Genre::Mystery.spec_name().len() != Genre::Biography.spec_name().len());
            assert(Genre::Mystery.spec_name().len() != Genre::Comedy.spec_name().len());
            assert(Genre::Mystery.spec_name().len() != Genre::Crime.spec_name().len());
            assert(Genre::Mystery.spec_name().len() != Genre::Documentary.spec_name().len());
            assert(Genre::Mystery.spec_name().len() != Genre::Drama.spec_name().len());
            assert(Genre::Mystery.spec_name().len() != Genre::Family.spec_name().len());
            assert(Genre::Mystery.spec_name()[0] != Genre::Fantasy.spec_name()[0]);
            assert(Genre::Mystery.spec_name().len() != Genre::FilmNoir.spec_name().len());
            assert(Genre::Mystery.spec_name().len() != Genre::GameShow.spec_name().len());
            assert(Genre::Mystery.spec_name()[0] != Genre::History.spec_name()[0]);
            assert(Genre::Mystery.spec_name().len() != Genre::Horror.spec_name().len());
            assert(Genre::Mystery.spec_name().len() != Genre::Music.spec_name().len());
            assert(Genre::Mystery.spec_name()[1] != Genre::Musical.spec_name()[1]);
        },
        Genre::News => {
            assert(Genre::News.spec_name().len() != Genre::Action.spec_name().len());
            assert(Genre::News.spec_name().len() != Genre::Adult.spec_name().len());
            assert(Genre::News.spec_name().len() != Genre::Adventure.spec_name().len());
            assert(Genre::News.spec_name().len() != Genre::Animation.spec_name().len());
            assert(Genre::News.spec_name().len() != Genre::Biography.spec_name().len());
            assert(Genre::News.spec_name().len() != Genre::Comedy.spec_name().len());
            assert(Genre::News.spec_name().len() != Genre::Crime.spec_name().len());
            assert(Genre::News.spec_name().len() != Genre::Documentary.spec_name().len());
            assert(Genre::News.spec_name().len() != Genre::Drama.spec_name().len());
            assert(Genre::News.spec_name().len() != Genre::Family.spec_name().len());
            assert(Genre::News.spec_name().len() != Genre::Fantasy.spec_name().len());
            assert(Genre::News.spec_name().len() != Genre::FilmNoir.spec_name().len());
            assert(Genre::News.spec_name().len() != Genre::GameShow.spec_name().len());
            assert(Genre::News.spec_name().len() != Genre::History.spec_name().len());
            assert(Genre::News.spec_name().len() != Genre::Horror.spec_name().len());
            assert(Genre::News.spec_name().len() != Genre::Music.spec_name().len());
            assert(Genre::News.spec_name().len() != Genre::Musical.spec_name().len());
            assert(Genre::News.spec_name().len() != Genre::Mystery.spec_name().len());
        },
        Genre::RealityTv => {
            assert(Genre::RealityTv.spec_name().len() != Genre::Action.spec_name().len());
            assert(Genre::RealityTv.spec_name().len() != Genre::Adult.spec_name().len());
            assert(Genre::RealityTv.spec_name().len() != Genre::Adventure.spec_name().len());
            assert(Genre::RealityTv.spec_name().len() != Genre::Animation.spec_name().len());
            assert(Genre::RealityTv.spec_name().len() != Genre::Biography.spec_name().len());
            assert(Genre::RealityTv.spec_name().len() != Genre::Comedy.spec_name().len());
            assert(Genre::RealityTv.spec_name().len() != Genre::Crime.spec_name().len());
            assert(Genre::RealityTv.spec_name().len() != Genre::Documentary.spec_name().len());
            assert(Genre::RealityTv.spec_name().len() != Genre::Drama.spec_name().len());
            assert(Genre::RealityTv.spec_name().len() != Genre::Family.spec_name().len());
            assert(Genre::RealityTv.spec_name().len() != Genre::Fantasy.spec_name().len());
            assert(Genre::RealityTv.spec_name().len() != Genre::FilmNoir.spec_name().len());
            assert(Genre::RealityTv.spec_name().len() != Genre::GameShow.spec_name().len());
            assert(Genre::RealityTv.spec_name().len() != Genre::History.spec_name().len());
            assert(Genre::RealityTv.spec_name().len() != Genre::Horror.spec_name().len());
            assert(Genre::RealityTv.spec_name().len() != Genre::Music.spec_name().len());
            assert(Genre::RealityTv.spec_name().len() != Genre::Musical.spec_name().len());
            assert(Genre::RealityTv.spec_name().len() != Genre::Mystery.spec_name().len());
            assert(Genre::RealityTv.spec_name().len() != Genre::News.spec_name().len());
        },
        Genre::Romance => {
            assert(Genre::Romance.spec_name().len() != Genre::Action.spec_name().len());
            assert(Genre::Romance.spec_name().len() != Genre::Adult.spec_name().len());
            assert(Genre::Romance.spec_name().len() != Genre::Adventure.spec_name().len());
            assert(Genre::Romance.spec_name().len() != Genre::Animation.spec_name().len());
            assert(Genre::Romance.spec_name().len() != Genre::Biography.spec_name().len());
            assert(Genre::Romance.spec_name().len() != Genre::Comedy.spec_name().len());
            assert(Genre::Romance.spec_name().len() != Genre::Crime.spec_name().len());
            assert(Genre::Romance.spec_name().len() != Genre::Documentary.spec_name().len());
            assert(Genre::Romance.spec_name().len() != Genre::Drama.spec_name().len());
            assert(Genre::Romance.spec_name().len() != Genre::Family.spec_name().len());
            assert(Genre::Romance.spec_name()[0] != Genre::Fantasy.spec_name()[0]);
            assert(Genre::Romance.spec_name().len() != Genre::FilmNoir.spec_name().len());
            assert(Genre::Romance.spec_name().len() != Genre::GameShow.spec_name().len());
            assert(Genre::Romance.spec_name()[0] != Genre::History.spec_name()[0]);
            assert(Genre::Romance.spec_name().len() != Genre::Horror.spec_name().len());
            assert(Genre::Romance.spec_name().len() != Genre::Music.spec_name().len());
            assert(Genre::Romance.spec_name()[0] != Genre::Musical.spec_name()[0]);
            assert(Genre::Romance.spec_name()[0] != Genre::Mystery.spec_name()[0]);
            assert(Genre::Romance.spec_name().len() != Genre::News.spec_name().len());
            assert(Genre::Romance.spec_name().len() != Genre::RealityTv.spec_name().len());
        },
        Genre::SciFi => {
            assert(Genre::SciFi.spec_name()[0] != Genre::Action.spec_name()[0]);
            assert(Genre::SciFi.spec_name().len() != Genre::Adult.spec_name().len());
            assert(Genre::SciFi.spec_name().len() != Genre::Adventure.spec_name().len());
            assert(Genre::SciFi.spec_name().len() != Genre::Animation.spec_name().len());
            assert(Genre::SciFi.spec_name().len() != Genre::Biography.spec_name().len());
            assert(Genre::SciFi.spec_name()[0] != Genre::Comedy.spec_name()[0]);
            assert(Genre::SciFi.spec_name().len() != Genre::Crime.spec_name().len());
            assert(Genre::SciFi.spec_name().len() != Genre::Documentary.spec_name().len());
            assert(Genre::SciFi.spec_name().len() != Genre::Drama.spec_name().len());
            assert(Genre::SciFi.spec_name()[0] != Genre::Family.spec_name()[0]);
            assert(Genre::SciFi.spec_name().len() != Genre::Fantasy.spec_name().len());
            assert(Genre::SciFi.spec_name().len() != Genre::FilmNoir.spec_name().len());
            assert(Genre::SciFi.spec_name().len() != Genre::GameShow.spec_name().len());
            assert(Genre::SciFi.spec_name().len() != Genre::History.spec_name().len());
            assert(Genre::SciFi.spec_name()[0] != Genre::Horror.spec_name()[0]);
            assert(Genre::SciFi.spec_name().len() != Genre::Music.spec_name().len());
            assert(Genre::SciFi.spec_name().len() != Genre::Musical.spec_name().len());
            assert(Genre::SciFi.spec_name().len() != Genre::Mystery.spec_name().len());
            assert(Genre::SciFi.spec_name().len() != Genre::News.spec_name().len());
            assert(Genre::SciFi.spec_name().len() != Genre::RealityTv.spec_name().len());
            assert(Genre::SciFi.spec_name().len() != Genre::Romance.spec_name().len());
        },
        Genre::Short => {
            assert(Genre::Short.spec_name().len() != Genre::Action.spec_name().len());
            assert(Genre::Short.spec_name()[0] != Genre::Adult.spec_name()[0]);
            assert(Genre::Short.spec_name().len() != Genre::Adventure.spec_name().len());
            assert(Genre::Short.spec_name().len() != Genre::Animation.spec_name().len());
            assert(Genre::Short.spec_name().len() != Genre::Biography.spec_name().len());
            assert(Genre::Short.spec_name().len() != Genre::Comedy.spec_name().len());
            assert(Genre::Short.spec_name()[0] != Genre::Crime.spec_name()[0]);
            assert(Genre::Short.spec_name().len() != Genre::Documentary.spec_name().len());
            assert(Genre::Short.spec_name()[0] != Genre::Drama.spec_name()[0]);
            assert(Genre::Short.spec_name().len() != Genre::Family.spec_name().len());
            assert(Genre::Short.spec_name().len() != Genre::Fantasy.spec_name().len());
            assert(Genre::Short.spec_name().len() != Genre::FilmNoir.spec_name().len());
            assert(Genre::Short.spec_name().len() != Genre::GameShow.spec_name().len());
            assert(Genre::Short.spec_name().len() != Genre::History.spec_name().len());
            assert(Genre::Short.spec_name().len() != Genre::Horror.spec_name().len());
            assert(Genre::Short.spec_name()[0] != Genre::Music.spec_name()[0]);
            assert(Genre::Short.spec_name().len() != Genre::Musical.spec_name().len());
            assert(Genre::Short.spec_name().len() != Genre::Mystery.spec_name().len());
            assert(Genre::Short.spec_name().len() != Genre::News.spec_name().len());
            assert(Genre::Short.spec_name().len() != Genre::RealityTv.spec_name().len());
            assert(Genre::Short.spec_name().len() != Genre::Romance.spec_name().len());
            assert(Genre::Short.spec_name().len() != Genre::SciFi.spec_name().len());
        },
        Genre::Sport => {
            assert(Genre::Sport.spec_name().len() != Genre::Action.spec_name().len());
            assert(Genre::Sport.spec_name()[0] != Genre::Adult.spec_name()[0]);
            assert(Genre::Sport.spec_name().len() != Genre::Adventure.spec_name().len());
            assert(Genre::Sport.spec_name().len() != Genre::Animation.spec_name().len());
            assert(Genre::Sport.spec_name().len() != Genre::Biography.spec_name().len());
            assert(Genre::Sport.spec_name().len() != Genre::Comedy.spec_name().len());
            assert(Genre::Sport.spec_name()[0] != Genre::Crime.spec_name()[0]);
            assert(Genre::Sport.spec_name().len() != Genre::Documentary.spec_name().len());
            assert(Genre::Sport.spec_name()[0] != Genre::Drama.spec_name()[0]);
            assert(Genre::Sport.spec_name().len() != Genre::Family.spec_name().len());
            assert(Genre::Sport.spec_name().len() != Genre::Fantasy.spec_name().len());
            assert(Genre::Sport.spec_name().len() != Genre::FilmNoir.spec_name().len());
            assert(Genre::Sport.spec_name().len() != Genre::GameShow.spec_name().len());
            assert(Genre::Sport.spec_name().len() != Genre::History.spec_name().len());
            assert(Genre::Sport.spec_name().len() != Genre::Horror.spec_name().len());
            assert(Genre::Sport.spec_name()[0] != Genre::Music.spec_name()[0]);
            assert(Genre::Sport.spec_name().len() != Genre::Musical.spec_name().len());
            assert(Genre::Sport.spec_name().len() != Genre::Mystery.spec_name().len());
            assert(Genre::Sport.spec_name().len() != Genre::News.spec_name().len());
            assert(Genre::Sport.spec_name().len() != Genre::RealityTv.spec_name().len());
            assert(Genre::Sport.spec_name().len() != Genre::Romance.spec_name().len());
            assert(Genre::Sport.spec_name().len() != Genre::SciFi.spec_name().len());
            assert(Genre::Sport.spec_name()[1] != Genre::Short.spec_name()[1]);
        },
        Genre::TalkShow => {
            assert(Genre::TalkShow.spec_name().len() != Genre::Action.spec_name().len());
            assert(Genre::TalkShow.spec_name().len() != Genre::Adult.spec_name().len());
            assert(Genre::TalkShow.spec_name()[0] != Genre::Adventure.spec_name()[0]);
            assert(Genre::TalkShow.spec_name()[0] != Genre::Animation.spec_name()[0]);
            assert(Genre::TalkShow.spec_name()[0] != Genre::Biography.spec_name()[0]);
            assert(Genre::TalkShow.spec_name().len() != Genre::Comedy.spec_name().len());
            assert(Genre::TalkShow.spec_name().len() != Genre::Crime.spec_name().len());
            assert(Genre::TalkShow.spec_name().len() != Genre::Documentary.spec_name().len());
            assert(Genre::TalkShow.spec_name().len() != Genre::Drama.spec_name().len());
            assert(Genre::TalkShow.spec_name().len() != Genre::Family.spec_name().len());
            assert(Genre::TalkShow.spec_name().len() != Genre::Fantasy.spec_name().len());
            assert(Genre::TalkShow.spec_name()[0] != Genre::FilmNoir.spec_name()[0]);
            assert(Genre::TalkShow.spec_name()[0] != Genre::GameShow.spec_name()[0]);
            assert(Genre::TalkShow.spec_name().len() != Genre::History.spec_name().len());
            assert(Genre::TalkShow.spec_name().len() != Genre::Horror.spec_name().len());
            assert(Genre::TalkShow.spec_name().len() != Genre::Music.spec_name().len());
            assert(Genre::TalkShow.spec_name().len() != Genre::Musical.spec_name().len());
            assert(Genre::TalkShow.spec_name().len() != Genre::Mystery.spec_name().len());
            assert(Genre::TalkShow.spec_name().len() != Genre::News.spec_name().len());
            assert(Genre::TalkShow.spec_name().len() != Genre::RealityTv.spec_name().len());
            assert(Genre::TalkShow.spec_name().len() != Genre::Romance.spec_name().len());
            assert(Genre::TalkShow.spec_name().len() != Genre::SciFi.spec_name().len());
            assert(Genre::TalkShow.spec_name().len() != Genre::Short.spec_name().len());
            assert(Genre::TalkShow.spec_name().len() != Genre::Sport.spec_name().len());
        },
        Genre::Thriller => {
            assert(Genre::Thriller.spec_name().len() != Genre::Action.spec_name().len());
            assert(Genre::Thriller.spec_name().len() != Genre::Adult.spec_name().len());
            assert(Genre::Thriller.spec_name().len() != Genre::Adventure.spec_name().len());
            assert(Genre::Thriller.spec_name().len() != Genre::Animation.spec_name().len());
            assert(Genre::Thriller.spec_name().len() != Genre::Biography.spec_name().len());
            assert(Genre::Thriller.spec_name().len() != Genre::Comedy.spec_name().len());
            assert(Genre::Thriller.spec_name().len() != Genre::Crime.spec_name().len());
            assert(Genre::Thriller.spec_name().len() != Genre::Documentary.spec_name().len());
            assert(Genre::Thriller.spec_name().len() != Genre::Drama.spec_name().len());
            assert(Genre::Thriller.spec_name().len() != Genre::Family.spec_name().len());
            assert(Genre::Thriller.spec_name().len() != Genre::Fantasy.spec_name().len());
            assert(Genre::Thriller.spec_name().len() != Genre::FilmNoir.spec_name().len());
            assert(Genre::Thriller.spec_name().len() != Genre::GameShow.spec_name().len());
            assert(Genre::Thriller.spec_name().len() != Genre::History.spec_name().len());
            assert(Genre::Thriller.spec_name().len() != Genre::Horror.spec_name().len());
            assert(Genre::Thriller.spec_name().len() != Genre::Music.spec_name().len());
            assert(Genre::Thriller.spec_name().len() != Genre::Musical.spec_name().len());
            assert(Genre::Thriller.spec_name().len() != Genre::Mystery.spec_name().len());
            assert(Genre::Thriller.spec_name().len() != Genre::News.spec_name().len());
            assert(Genre::Thriller.spec_name().len() != Genre::RealityTv.spec_name().len());
            assert(Genre::Thriller.spec_name().len() != Genre::Romance.spec_name().len());
            assert(Genre::Thriller.spec_name().len() != Genre::SciFi.spec_name().len());
            assert(Genre::Thriller.spec_name().len() != Genre::Short.spec_name().len());
            assert(Genre::Thriller.spec_name().len() != Genre::Sport.spec_name().len());
            assert(Genre::Thriller.spec_name().len() != Genre::TalkShow.spec_name().len());
        },
        Genre::War => {
            assert(Genre::War.spec_name().len() != Genre::Action.spec_name().len());
            assert(Genre::War.spec_name().len() != Genre::Adult.spec_name().len());
            assert(Genre::War.spec_name().len() != Genre::Adventure.spec_name().len());
            assert(Genre::War.spec_name().len() != Genre::Animation.spec_name().len());
            assert(Genre::War.spec_name().len() != Genre::Biography.spec_name().len());
            assert(Genre::War.spec_name().len() != Genre::Comedy.spec_name().len());
            assert(Genre::War.spec_name().len() != Genre::Crime.spec_name().len());
            assert(Genre::War.spec_name().len() != Genre::Documentary.spec_name().len());
            assert(Genre::War.spec_name().len() != Genre::Drama.spec_name().len());
            assert(Genre::War.spec_name().len() != Genre::Family.spec_name().len());
            assert(Genre::War.spec_name().len() != Genre::Fantasy.spec_name().len());
            assert(Genre::War.spec_name().len() != Genre::FilmNoir.spec_name().len());
            assert(Genre::War.spec_name().len() != Genre::GameShow.spec_name().len());
            assert(Genre::War.spec_name().len() != Genre::History.spec_name().len());
            assert(Genre::War.spec_name().len() != Genre::Horror.spec_name().len());
            assert(Genre::War.spec_name().len() != Genre::Music.spec_name().len());
            assert(Genre::War.spec_name().len() != Genre::Musical.spec_name().len());
            assert(Genre::War.spec_name().len() != Genre::Mystery.spec_name().len());
            assert(Genre::War.spec_name().len() != Genre::News.spec_name().len());
            assert(Genre::War.spec_name().len() != Genre::RealityTv.spec_name().len());
            assert(Genre::War.spec_name().len() != Genre::Romance.spec_name().len());
            assert(Genre::War.spec_name().len() != Genre::SciFi.spec_name().len());
            assert(Genre::War.spec_name().len() != Genre::Short.spec_name().len());
            assert(Genre::War.spec_name().len() != Genre::Sport.spec_name().len());
            assert(Genre::War.spec_name().len() != Genre::TalkShow.spec_name().len());
            assert(Genre::War.spec_name().len() != Genre::Thriller.spec_name().len());
        },
        Genre::Western => {
            assert(Genre::Western.spec_name().len() != Genre::Action.spec_name().len());
            assert(Genre::Western.spec_name().len() != Genre::Adult.spec_name().len());
            assert(Genre::Western.spec_name().len() != Genre::Adventure.spec_name().len());
            assert(Genre::Western.spec_name().len() != Genre::Animation.spec_name().len());
            assert(Genre::Western.spec_name().len() != Genre::Biography.spec_name().len());
            assert(Genre::Western.spec_name().len() != Genre::Comedy.spec_name().len());
            assert(Genre::Western.spec_name().len() != Genre::Crime.spec_name().len());
            assert(Genre::Western.spec_name().len() != Genre::Documentary.spec_name().len());
            assert(Genre::Western.spec_name().len() != Genre::Drama.spec_name().len());
            assert(Genre::Western.spec_name().len() != Genre::Family.spec_name().len());
            assert(Genre::Western.spec_name()[0] != Genre::Fantasy.spec_name()[0]);
            assert(Genre::Western.spec_name().len() != Genre::FilmNoir.spec_name().len());
            assert(Genre::Western.spec_name().len() != Genre::GameShow.spec_name().len());
            assert(Genre::Western.spec_name()[0] != Genre::History.spec_name()[0]);
            assert(Genre::Western.spec_name().len() != Genre::Horror.spec_name().len());
            assert(Genre::Western.spec_name().len() != Genre::Music.spec_name().len());
            assert(Genre::Western.spec_name()[0] != Genre::Musical.spec_name()[0]);
            assert(Genre::Western.spec_name()[0] != Genre::Mystery.spec_name()[0]);
            assert(Genre::Western.spec_name().len() != Genre::News.spec_name().len());
            assert(Genre::Western.spec_name().len() != Genre::RealityTv.spec_name().len());
            assert(Genre::Western.spec_name()[0] != Genre::Romance.spec_name()[0]);
            assert(Genre::Western.spec_name().len() != Genre::SciFi.spec_name().len());
            assert(Genre::Western.spec_name().len() != Genre::Short.spec_name().len());
            assert(Genre::Western.spec_name().len() != Genre::Sport.spec_name().len());
            assert(Genre::Western.spec_name().len() != Genre::TalkShow.spec_name().len());
            assert(Genre::Western.spec_name().len() != Genre::Thriller.spec_name().len());
            assert(Genre::Western.spec_name().len() != Genre::War.spec_name().len());
        },
        Genre::Experimental => {
            assert(Genre::Experimental.spec_name().len() != Genre::Action.spec_name().len());
            assert(Genre::Experimental.spec_name().len() != Genre::Adult.spec_name().len());
            assert(Genre::Experimental.spec_name().len() != Genre::Adventure.spec_name().len());
            assert(Genre::Experimental.spec_name().len() != Genre::Animation.spec_name().len());
            assert(Genre::Experimental.spec_name().len() != Genre::Biography.spec_name().len());
            assert(Genre::Experimental.spec_name().len() != Genre::Comedy.spec_name().len());
            assert(Genre::Experimental.spec_name().len() != Genre::Crime.spec_name().len());
            assert(Genre::Experimental.spec_name().len() != Genre::Documentary.spec_name().len());
            assert(Genre::Experimental.spec_name().len() != Genre::Drama.spec_name().len());
            assert(Genre::Experimental.spec_name().len() != Genre::Family.spec_name().len());
            assert(Genre::Experimental.spec_name().len() != Genre::Fantasy.spec_name().len());
            assert(Genre::Experimental.spec_name().len() != Genre::FilmNoir.spec_name().len());
            assert(Genre::Experimental.spec_name().len() != Genre::GameShow.spec_name().len());
            assert(Genre::Experimental.spec_name().len() != Genre::History.spec_name().len());
            assert(Genre::Experimental.spec_name().len() != Genre::Horror.spec_name().len());
            assert(Genre::Experimental.spec_name().len() != Genre::Music.spec_name().len());
            assert(Genre::Experimental.spec_name().len() != Genre::Musical.spec_name().len());
            assert(Genre::Experimental.spec_name().len() != Genre::Mystery.spec_name().len());
            assert(Genre::Experimental.spec_name().len() != Genre::News.spec_name().len());
            assert(Genre::Experimental.spec_name().len() != Genre::RealityTv.spec_name().len());
            assert(Genre::Experimental.spec_name().len() != Genre::Romance.spec_name().len());
            assert(Genre::Experimental.spec_name().len() != Genre::SciFi.spec_name().len());
            assert(Genre::Experimental.spec_name().len() != Genre::Short.spec_name().len());
            assert(Genre::Experimental.spec_name().len() != Genre::Sport.spec_name().len());
            assert(Genre::Experimental.spec_name().len() != Genre::TalkShow.spec_name().len());
            assert(Genre::Experimental.spec_name().len() != Genre::Thriller.spec_name().len());
            assert(Genre::Experimental.spec_name().len() != Genre::War.spec_name().len());
            assert(Genre::Experimental.spec_name().len() != Genre::Western.spec_name().len());
        },
    }
}


/// Converting a genre to its position and back gives the genre again.
pub proof fn lemma_genre_value_roundtrip(g: Genre)
    ensures
        Genre::spec_from(g.spec_value()) == g,
        g.spec_value() <= 28,
{
}

/// Two genres with the same name are the same genre.
pub proof fn lemma_genre_name_injective(g1: Genre, g2: Genre)
    ensures
        g1.spec_name() == g2.spec_name() ==> g1 == g2,
        genre_name_bytes(g1) == genre_name_bytes(g2) ==> g1 == g2,
{
    lemma_genre_named(g1);
    lemma_genre_named(g2);
    vstd::utf8::encode_utf8_decode_utf8(g1.spec_name());
    vstd::utf8::encode_utf8_decode_utf8(g2.spec_name());
}


impl Genre {
    /// Parses a genre from the bytes of its name.
    pub fn from_name(name: &[u8]) -> (r: Option<Genre>)
        ensures
            forall|g: Genre| #[trigger] genre_name_bytes(g) == name@ <==> r == Some(g),
    {
        let mut i: u8 = 0;
        while i <= 28
            invariant
                i <= 29,
                forall|j: u8| j < i ==> genre_name_bytes(#[trigger] Genre::spec_from(j)) != name@,
            decreases 29 - i,
        {
            let g = Genre::from(i);
            if bytes_eq(name, g.name().as_bytes()) {
                proof {
                    assert forall|h: Genre| #[trigger] genre_name_bytes(h) == name@ implies h == g by {
                        lemma_genre_name_injective(h, g);
                    }
                }
                return Some(g);
            }
            i += 1;
        }
        proof {
            assert forall|h: Genre| #[trigger] genre_name_bytes(h) != name@ by {
                lemma_genre_value_roundtrip(h);
                assert(genre_name_bytes(Genre::spec_from(h.spec_value())) != name@);
            }
        }
        None
    }
}

/// A genre's name, parsed back, gives the genre.
pub proof fn lemma_genre_name_parses_back(g: Genre, name: Seq<u8>)
    requires
        name == genre_name_bytes(g),
    ensures
        forall|h: Genre| #[trigger] genre_name_bytes(h) == name <==> h == g,
{
    assert forall|h: Genre| #[trigger] genre_name_bytes(h) == name implies h == g by {
        lemma_genre_name_injective(h, g);
    }
}


/// Whether bit `index` of `bits` is set.
pub open spec fn bit_set(bits: u32, index: u8) -> bool {
    (bits >> index) & 1u32 == 1u32
}

/// Setting bit `v` sets exactly that bit and keeps the others.
proof fn lemma_bit_or(bits: u32, v: u8, w: u8)
    requires
        v < 32,
        w < 32,
    ensures
        bit_set(bits | (1u32 << v), w) <==> (bit_set(bits, w) || v == w),
{
    assert(((bits | (1u32 << v)) >> w) & 1u32 == 1u32 <==> (((bits >> w) & 1u32 == 1u32) || v == w))
        by (bit_vector)
        requires
            v < 32,
            w < 32,
    ;
}

/// A set of genres, one bit per genre.
#[derive(PartialEq, Eq, Clone, Copy, Structural)]
pub struct Genres(u32);

impl Genres {
    /// The raw bits of the set.
    pub closed spec fn spec_bits(self) -> u32 {
        self.0
    }

    /// Whether the set holds the given genre.
    pub open spec fn has(self, g: Genre) -> bool {
        bit_set(self.spec_bits(), g.spec_value())
    }

    /// The genres of the set whose position is at least `index`, in ascending order.
    pub open spec fn list_from(self, index: nat) -> Seq<Genre>
        decreases 29 - index,
    {
        if index > 28 {
            Seq::empty()
        } else if self.has(Genre::spec_from(index as u8)) {
            seq![Genre::spec_from(index as u8)] + self.list_from(index + 1)
        } else {
            self.list_from(index + 1)
        }
    }

    /// All genres of the set, in ascending order of position.
    pub open spec fn spec_list(self) -> Seq<Genre> {
        self.list_from(0)
    }

    /// The empty set of genres.
    pub fn new() -> (r: Genres)
        ensures
            r.spec_bits() == 0,
            forall|g: Genre| !(#[trigger] r.has(g)),
    {
        proof {
            assert forall|g: Genre| !(#[trigger] bit_set(0u32, g.spec_value())) by {
                let v = g.spec_value();
                assert((0u32 >> v) & 1u32 == 0u32) by (bit_vector);
            }
        }
        Genres(0)
    }

    /// The set of genres whose raw bits are `bits`.
    pub closed spec fn spec_from_bits(bits: u32) -> Genres {
        Genres(bits)
    }

    /// A set of genres is the set of its raw bits, and the set of some raw bits has those
    /// bits.
    pub proof fn lemma_from_bits(self, bits: u32)
        ensures
            Genres::spec_from_bits(self.spec_bits()) == self,
            Genres::spec_from_bits(bits).spec_bits() == bits,
    {
    }

    /// The set whose raw bits are `bits`.
    pub fn from_bits(bits: u32) -> (r: Genres)
        ensures
            r.spec_bits() == bits,
    {
        Genres(bits)
    }

    /// Returns the raw bits of the set.
    pub fn bits(&self) -> (r: u32)
        ensures
            r == self.spec_bits(),
    {
        self.0
    }

    /// Adds a genre to the set.
    pub fn add(&mut self, genre: Genre)
        ensures
            final(self).spec_bits() == old(self).spec_bits() | (1u32 << genre.spec_value()),
            forall|g: Genre| #[trigger] final(self).has(g) <==> (old(self).has(g) || g == genre),
    {
        let index = genre.value();
        let ghost old_bits = self.0;
        self.0 = self.0 | (1u32 << index);
        proof {
            assert forall|g: Genre| #[trigger] self.has(g) <==> (bit_set(old_bits, g.spec_value()) || g == genre) by {
                lemma_bit_or(old_bits, index, g.spec_value());
                lemma_genre_value_roundtrip(g);
                lemma_genre_value_roundtrip(genre);
            }
        }
    }

    /// Returns the genre at position `index` if the set holds it.
    pub fn get(&self, index: u8) -> (r: Option<Genre>)
        requires
            index <= 28,
        ensures
            r == (if self.has(Genre::spec_from(index)) {
                Some(Genre::spec_from(index))
            } else {
                None
            }),
    {
        if (self.0 >> index) & 1 == 1 {
            Some(Genre::from(index))
        } else {
            None
        }
    }

    /// Returns an iterator over the genres of the set, in ascending order of position.
    pub fn iter(&self) -> (r: GenresIter)
        ensures
            r.remaining() == self.spec_list(),
    {
        GenresIter::new(*self)
    }

    /// Returns the genres of the set, in ascending order of position.
    pub fn to_vec(&self) -> (r: Vec<Genre>)
        ensures
            r@ == self.spec_list(),
    {
        let mut it = self.iter();
        let mut res: Vec<Genre> = Vec::new();
        loop
            invariant
                res@ + it.remaining() == self.spec_list(),
            decreases it.remaining().len(),
        {
            match it.next() {
                Some(g) => {
                    res.push(g);
                    assert(res@ + it.remaining() =~= self.spec_list());
                },
                None => {
                    assert(res@ =~= self.spec_list());
                    return res;
                },
            }
        }
    }
}

/// An iterator over the genres of a set.
pub struct GenresIter {
    genres: Genres,
    index: u8,
}

impl GenresIter {
    /// The position from which the iterator goes on never passes one past the last genre.
    #[verifier::type_invariant]
    spec fn wf(self) -> bool {
        self.index <= 29
    }

    /// The genres that the iterator has still to give out.
    pub closed spec fn remaining(self) -> Seq<Genre> {
        self.genres.list_from(self.index as nat)
    }

    /// Creates an iterator over the given set of genres.
    pub fn new(genres: Genres) -> (r: GenresIter)
        ensures
            r.remaining() == genres.spec_list(),
    {
        GenresIter { genres, index: 0 }
    }

    /// Returns the next genre of the set, in ascending order of position.
    pub fn next(&mut self) -> (r: Option<Genre>)
        ensures
            old(self).remaining().len() > 0 ==> {
                &&& r == Some(old(self).remaining()[0])
                &&& final(self).remaining() == old(self).remaining().drop_first()
            },
            old(self).remaining().len() == 0 ==> r is None && final(self).remaining().len() == 0,
    {
        proof {
            use_type_invariant(&*self);
        }
        while self.index <= 28
            invariant
                self.index <= 29,
                self.genres == old(self).genres,
                self.remaining() == old(self).remaining(),
            decreases 29 - self.index,
        {
            let i = self.index;
            match self.genres.get(i) {
                Some(g) => {
                    self.index = i + 1;
                    assert(old(self).remaining() == seq![g] + self.remaining());
                    assert(old(self).remaining().drop_first() =~= self.remaining());
                    return Some(g);
                },
                None => {
                    self.index = i + 1;
                },
            }
        }
        None
    }
}


/// The text that joins the names of the given genres with `, `.
pub open spec fn genres_text(list: Seq<Genre>) -> Seq<char>
    decreases list.len(),
{
    if list.len() == 0 {
        Seq::empty()
    } else if list.len() == 1 {
        list[0].spec_name()
    } else {
        genres_text(list.drop_last()) + seq![',', ' '] + list.last().spec_name()
    }
}

impl Genres {
    /// Returns the names of the genres of the set, in ascending order of position,
    /// joined with `, `.
    pub fn to_text(&self) -> (r: String)
        ensures
            r@ == genres_text(self.spec_list()),
    {
        let list = self.to_vec();
        let mut res = String::new();
        let mut i: usize = 0;
        while i < list.len()
            invariant
                i <= list@.len(),
                res@ == genres_text(list@.take(i as int)),
            decreases list@.len() - i,
        {
            let ghost prefix = list@.take(i as int);
            if i > 0 {
                res.append(", ");
            }
            res.append(list[i].name());
            proof {
                reveal_strlit(", ");
                assert(list@.take(i + 1).drop_last() =~= prefix);
            }
            i += 1;
        }
        assert(list@.take(list@.len() as int) =~= list@);
        res
    }
}


/// The genres that `list_from(k)` gives out are those of the set from position `k` on,
/// in strictly ascending order of position.
proof fn lemma_list_from(gs: Genres, k: nat)
    ensures
        forall|g: Genre| #[trigger] gs.list_from(k).contains(g) <==> (gs.has(g) && g.spec_value() >= k),
        forall|i: int, j: int|
            0 <= i < j < gs.list_from(k).len() ==> #[trigger] gs.list_from(k)[i].spec_value()
                < #[trigger] gs.list_from(k)[j].spec_value(),
        forall|i: int|
            0 <= i < gs.list_from(k).len() ==> #[trigger] gs.list_from(k)[i].spec_value() >= k,
    decreases 29 - k,
{
    if k > 28 {
        assert forall|g: Genre| !(#[trigger] gs.list_from(k).contains(g)) implies !(gs.has(g) && g.spec_value() >= k) by {
            lemma_genre_value_roundtrip(g);
        }
    } else {
        lemma_list_from(gs, k + 1);
        let g0 = Genre::spec_from(k as u8);
        assert(g0.spec_value() == k);
        let rest = gs.list_from(k + 1);
        if gs.has(g0) {
            let l = seq![g0] + rest;
            assert(gs.list_from(k) == l);
            assert forall|g: Genre| #[trigger] l.contains(g) <==> (gs.has(g) && g.spec_value() >= k) by {
                lemma_genre_value_roundtrip(g);
                if l.contains(g) {
                    let i = choose|i: int| 0 <= i < l.len() && l[i] == g;
                    if i > 0 {
                        assert(rest[i - 1] == g);
                        assert(rest.contains(g));
                    }
                }
                if gs.has(g) && g.spec_value() >= k {
                    if g.spec_value() == k {
                        assert(l[0] == g);
                    } else {
                        assert(rest.contains(g));
                        let i = choose|i: int| 0 <= i < rest.len() && rest[i] == g;
                        assert(l[i + 1] == g);
                    }
                }
            }
            assert forall|i: int, j: int| 0 <= i < j < l.len() implies #[trigger] l[i].spec_value()
                < #[trigger] l[j].spec_value() by {
                if i > 0 {
                    assert(l[i] == rest[i - 1]);
                    assert(l[j] == rest[j - 1]);
                } else {
                    assert(l[j] == rest[j - 1]);
                    assert(rest[j - 1].spec_value() >= k + 1);
                }
            }
            assert forall|i: int| 0 <= i < l.len() implies #[trigger] l[i].spec_value() >= k by {
                if i > 0 {
                    assert(l[i] == rest[i - 1]);
                }
            }
        } else {
            assert forall|g: Genre| #[trigger] rest.contains(g) <==> (gs.has(g) && g.spec_value() >= k) by {
                lemma_genre_value_roundtrip(g);
                if g.spec_value() == k {
                    assert(g == g0);
                }
            }
        }
    }
}

/// The list of a set of genres holds exactly the genres of the set, each once, in strictly
/// ascending order of position.
pub proof fn lemma_genres_list(gs: Genres)
    ensures
        forall|g: Genre| #[trigger] gs.spec_list().contains(g) <==> gs.has(g),
        forall|i: int, j: int|
            0 <= i < j < gs.spec_list().len() ==> #[trigger] gs.spec_list()[i].spec_value()
                < #[trigger] gs.spec_list()[j].spec_value(),
{
    lemma_list_from(gs, 0);
}


/// The names of the genres are those that the IMDB data sets write and that the tool shows,
/// and reading a genre's name gives the genre back.
pub proof fn lemma_genre_names()
    ensures
        forall|g: Genre|
            #[trigger] g.spec_name() == match g {
                Genre::Action => "Action"@,
                Genre::Adult => "Adult"@,
                Genre::Adventure => "Adventure"@,
                Genre::Animation => "Animation"@,
                Genre::Biography => "Biography"@,
                Genre::Comedy => "Comedy"@,
                Genre::Crime => "Crime"@,
                Genre::Documentary => "Documentary"@,
                Genre::Drama => "Drama"@,
                Genre::Family => "Family"@,
                Genre::Fantasy => "Fantasy"@,
                Genre::FilmNoir => "Film-Noir"@,
                Genre::GameShow => "Game-Show"@,
                Genre::History => "History"@,
                Genre::Horror => "Horror"@,
                Genre::Music => "Music"@,
                Genre::Musical => "Musical"@,
                Genre::Mystery => "Mystery"@,
                Genre::News => "News"@,
                Genre::RealityTv => "Reality-TV"@,
                Genre::Romance => "Romance"@,
                Genre::SciFi => "Sci-Fi"@,
                Genre::Short => "Short"@,
                Genre::Sport => "Sport"@,
                Genre::TalkShow => "Talk-Show"@,
                Genre::Thriller => "Thriller"@,
                Genre::War => "War"@,
                Genre::Western => "Western"@,
                Genre::Experimental => "Experimental"@,
            },
        forall|g: Genre| genre_named(#[trigger] g.spec_name()) == Some(g),
{
    reveal_strlit("Action");
    reveal_strlit("Adult");
    reveal_strlit("Adventure");
    reveal_strlit("Animation");
    reveal_strlit("Biography");
    reveal_strlit("Comedy");
    reveal_strlit("Crime");
    reveal_strlit("Documentary");
    reveal_strlit("Drama");
    reveal_strlit("Family");
    reveal_strlit("Fantasy");
    reveal_strlit("Film-Noir");
    reveal_strlit("Game-Show");
    reveal_strlit("History");
    reveal_strlit("Horror");
    reveal_strlit("Music");
    reveal_strlit("Musical");
    reveal_strlit("Mystery");
    reveal_strlit("News");
    reveal_strlit("Reality-TV");
    reveal_strlit("Romance");
    reveal_strlit("Sci-Fi");
    reveal_strlit("Short");
    reveal_strlit("Sport");
    reveal_strlit("Talk-Show");
    reveal_strlit("Thriller");
    reveal_strlit("War");
    reveal_strlit("Western");
    reveal_strlit("Experimental");
    assert forall|g: Genre| genre_named(#[trigger] g.spec_name()) == Some(g) by {
        lemma_genre_named(g);
    }
}

} // verus!
