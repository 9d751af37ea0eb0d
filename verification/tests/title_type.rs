use tvrank::title_type::TitleType;

#[test]
fn title_type_test_title_type_value() {
    assert_eq!(TitleType::VideoGame as u8, 0);
    assert_eq!(TitleType::Short as u8, 1);
    assert_eq!(TitleType::Video as u8, 2);
    assert_eq!(TitleType::Movie as u8, 3);
    assert_eq!(TitleType::TvShort as u8, 4);
    assert_eq!(TitleType::TvMovie as u8, 5);
    assert_eq!(TitleType::TvSpecial as u8, 6);
    assert_eq!(TitleType::TvEpisode as u8, 7);
    assert_eq!(TitleType::TvPilot as u8, 8);
    assert_eq!(TitleType::RadioEpisode as u8, 9);
    assert_eq!(TitleType::TvSeries as u8, 10);
    assert_eq!(TitleType::TvMiniSeries as u8, 11);
    assert_eq!(TitleType::RadioSeries as u8, 12);
}

#[test]
fn title_type_test_title_type_from_u8() {
    assert_eq!(TitleType::VideoGame, TitleType::from(0));
    assert_eq!(TitleType::Short, TitleType::from(1));
    assert_eq!(TitleType::Video, TitleType::from(2));
    assert_eq!(TitleType::Movie, TitleType::from(3));
    assert_eq!(TitleType::TvShort, TitleType::from(4));
    assert_eq!(TitleType::TvMovie, TitleType::from(5));
    assert_eq!(TitleType::TvSpecial, TitleType::from(6));
    assert_eq!(TitleType::TvEpisode, TitleType::from(7));
    assert_eq!(TitleType::TvPilot, TitleType::from(8));
    assert_eq!(TitleType::RadioEpisode, TitleType::from(9));
    assert_eq!(TitleType::TvSeries, TitleType::from(10));
    assert_eq!(TitleType::TvMiniSeries, TitleType::from(11));
    assert_eq!(TitleType::RadioSeries, TitleType::from(12));
}

#[test]
fn test_is_movie() {
    assert!(!TitleType::from(0).is_movie());
    assert!(TitleType::from(1).is_movie());
    assert!(TitleType::from(2).is_movie());
    assert!(TitleType::from(3).is_movie());
    assert!(TitleType::from(4).is_movie());
    assert!(TitleType::from(5).is_movie());
    assert!(TitleType::from(6).is_movie());
    assert!(!TitleType::from(7).is_movie());
    assert!(!TitleType::from(8).is_movie());
    assert!(!TitleType::from(9).is_movie());
    assert!(!TitleType::from(10).is_movie());
    assert!(!TitleType::from(11).is_movie());
    assert!(!TitleType::from(12).is_movie());
}

#[test]
fn test_is_series() {
    assert!(!TitleType::from(0).is_series());
    assert!(!TitleType::from(1).is_series());
    assert!(!TitleType::from(2).is_series());
    assert!(!TitleType::from(3).is_series());
    assert!(!TitleType::from(4).is_series());
    assert!(!TitleType::from(5).is_series());
    assert!(!TitleType::from(6).is_series());
    assert!(!TitleType::from(7).is_series());
    assert!(!TitleType::from(8).is_series());
    assert!(!TitleType::from(9).is_series());
    assert!(TitleType::from(10).is_series());
    assert!(TitleType::from(11).is_series());
    assert!(!TitleType::from(12).is_series());
}

#[test]
fn title_type_names_show_and_parse() {
    assert_eq!(TitleType::Short.name(), "Short Movie");
    assert_eq!(TitleType::TvMiniSeries.name(), "TV Mini-Series");
    assert_eq!(TitleType::Movie.name(), "Movie");
    assert_eq!(TitleType::from_name(b"tvMiniSeries"), Some(TitleType::TvMiniSeries));
    assert_eq!(TitleType::from_name(b"movie"), Some(TitleType::Movie));
    assert_eq!(TitleType::from_name(b"Movie"), None);
    for v in 0..13u8 {
        let t = TitleType::from(v);
        assert_eq!(t.value(), v);
        assert_eq!(TitleType::from_name(t.parse_name().as_bytes()), Some(t));
        assert!(!(t.is_movie() && t.is_series()));
    }
}
