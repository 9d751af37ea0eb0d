use tvrank::genre::{Genre, Genres};

#[test]
fn test_genre_value() {
    assert_eq!(Genre::Action as u8, 0);
    assert_eq!(Genre::Adult as u8, 1);
    assert_eq!(Genre::Adventure as u8, 2);
    assert_eq!(Genre::Animation as u8, 3);
    assert_eq!(Genre::Biography as u8, 4);
    assert_eq!(Genre::Comedy as u8, 5);
    assert_eq!(Genre::Crime as u8, 6);
    assert_eq!(Genre::Documentary as u8, 7);
    assert_eq!(Genre::Drama as u8, 8);
    assert_eq!(Genre::Family as u8, 9);
    assert_eq!(Genre::Fantasy as u8, 10);
    assert_eq!(Genre::FilmNoir as u8, 11);
    assert_eq!(Genre::GameShow as u8, 12);
    assert_eq!(Genre::History as u8, 13);
    assert_eq!(Genre::Horror as u8, 14);
    assert_eq!(Genre::Music as u8, 15);
    assert_eq!(Genre::Musical as u8, 16);
    assert_eq!(Genre::Mystery as u8, 17);
    assert_eq!(Genre::News as u8, 18);
    assert_eq!(Genre::RealityTv as u8, 19);
    assert_eq!(Genre::Romance as u8, 20);
    assert_eq!(Genre::SciFi as u8, 21);
    assert_eq!(Genre::Short as u8, 22);
    assert_eq!(Genre::Sport as u8, 23);
    assert_eq!(Genre::TalkShow as u8, 24);
    assert_eq!(Genre::Thriller as u8, 25);
    assert_eq!(Genre::War as u8, 26);
    assert_eq!(Genre::Western as u8, 27);
    assert_eq!(Genre::Experimental as u8, 28);
}

#[test]
fn test_genre_from_u8() {
    assert_eq!(Genre::Action, Genre::from(0));
    assert_eq!(Genre::Adult, Genre::from(1));
    assert_eq!(Genre::Adventure, Genre::from(2));
    assert_eq!(Genre::Animation, Genre::from(3));
    assert_eq!(Genre::Biography, Genre::from(4));
    assert_eq!(Genre::Comedy, Genre::from(5));
    assert_eq!(Genre::Crime, Genre::from(6));
    assert_eq!(Genre::Documentary, Genre::from(7));
    assert_eq!(Genre::Drama, Genre::from(8));
    assert_eq!(Genre::Family, Genre::from(9));
    assert_eq!(Genre::Fantasy, Genre::from(10));
    assert_eq!(Genre::FilmNoir, Genre::from(11));
    assert_eq!(Genre::GameShow, Genre::from(12));
    assert_eq!(Genre::History, Genre::from(13));
    assert_eq!(Genre::Horror, Genre::from(14));
    assert_eq!(Genre::Music, Genre::from(15));
    assert_eq!(Genre::Musical, Genre::from(16));
    assert_eq!(Genre::Mystery, Genre::from(17));
    assert_eq!(Genre::News, Genre::from(18));
    assert_eq!(Genre::RealityTv, Genre::from(19));
    assert_eq!(Genre::Romance, Genre::from(20));
    assert_eq!(Genre::SciFi, Genre::from(21));
    assert_eq!(Genre::Short, Genre::from(22));
    assert_eq!(Genre::Sport, Genre::from(23));
    assert_eq!(Genre::TalkShow, Genre::from(24));
    assert_eq!(Genre::Thriller, Genre::from(25));
    assert_eq!(Genre::War, Genre::from(26));
    assert_eq!(Genre::Western, Genre::from(27));
    assert_eq!(Genre::Experimental, Genre::from(28));
}

#[test]
fn test_genre_max() {
    assert_eq!(Genre::max(), Genre::Experimental as u8);
}

fn make_genres() -> Genres {
    let mut genres = Genres::new();
    genres.add(Genre::Adventure);
    genres.add(Genre::Music);
    genres.add(Genre::War);
    genres
}

#[test]
fn test_genres() {
    let genres = make_genres();
    assert_eq!(genres.get(2), Some(Genre::Adventure));
    assert_eq!(genres.get(3), None);
    assert_eq!(genres.get(15), Some(Genre::Music));
    assert_eq!(genres.get(17), None);
    assert_eq!(genres.get(26), Some(Genre::War));
    assert_eq!(genres.get(27), None);
}

#[test]
fn test_genres_iter() {
    let genres = make_genres();
    let mut iter = genres.iter();
    assert_eq!(iter.next(), Some(Genre::Adventure));
    assert_eq!(iter.next(), Some(Genre::Music));
    assert_eq!(iter.next(), Some(Genre::War));
    assert_eq!(iter.next(), None);
}

#[test]
fn genres_text_joins_names_in_order() {
    let genres = make_genres();
    assert_eq!(genres.to_text(), "Adventure, Music, War");
    assert_eq!(Genres::new().to_text(), "");
}

#[test]
fn genres_bits_are_one_per_genre() {
    let genres = make_genres();
    assert_eq!(genres.bits(), (1 << 2) | (1 << 15) | (1 << 26));
    assert_eq!(Genres::from_bits(genres.bits()).to_vec(), vec![Genre::Adventure, Genre::Music, Genre::War]);
}

#[test]
fn genre_names_parse_back() {
    for v in 0..=Genre::max() {
        let g = Genre::from(v);
        assert_eq!(Genre::from_name(g.name().as_bytes()), Some(g));
    }
    assert_eq!(Genre::from_name(b"Sci-Fi"), Some(Genre::SciFi));
    assert_eq!(Genre::from_name(b"Film-Noir"), Some(Genre::FilmNoir));
    assert_eq!(Genre::from_name(b"Cartoon"), None);
}
