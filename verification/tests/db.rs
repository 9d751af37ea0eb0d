use tvrank::db::{Db, DbImpl, Query};
use tvrank::genre::Genre;
use tvrank::import::import_title_line;
use tvrank::keywords::KeywordMatcher;
use tvrank::rating::{Rating, Ratings, RatingsError};
use tvrank::search::SearchString;
use tvrank::service::{LoadError, Service, ServiceDbFromBinary};
use tvrank::title::{Title, TitleError, TsvAction};
use tvrank::title_id::{TitleId, TitleIdError};
use tvrank::title_type::TitleType;

const BASICS: &str = "tconst\ttitleType\tprimaryTitle\toriginalTitle\tisAdult\tstartYear\tendYear\truntimeMinutes\tgenres
tt0000001\tshort\tCarmencita\tCarmencita\t0\t1894\t\\N\t1\tDocumentary,Short
tt0000002\tshort\tLe clown et ses chiens\tLe clown et ses chiens\t0\t1892\t\\N\t5\tAnimation,Short
tt0000003\tshort\tPauvre Pierrot\tPauvre Pierrot\t0\t1892\t\\N\t4\tAnimation,Comedy,Romance
tt0000004\tshort\tUn bon bock\tUn bon bock\t0\t1892\t\\N\t12\tAnimation,Short
tt0000005\tshort\tBlacksmith Scene\tBlacksmith Scene\t0\t1893\t\\N\t1\tComedy,Short
tt0000006\tshort\tChinese Opium Den\tChinese Opium Den\t0\t1894\t\\N\t1\tShort
tt0000007\tshort\tCorbett and Courtney Before the Kinetograph\tCorbett and Courtney Before the Kinetograph\t0\t1894\t\\N\t1\tShort,Sport
tt0000008\tshort\tEdison Kinetoscopic Record of a Sneeze\tEdison Kinetoscopic Record of a Sneeze\t0\t1894\t\\N\t1\tDocumentary,Short
tt0000009\tshort\tMiss Jerry\tMiss Jerry\t0\t1894\t\\N\t40\tRomance,Short
tt0000010\tshort\tLeaving the Factory\tLa sortie de l'usine Lumière à Lyon\t0\t1895\t\\N\t1\tDocumentary,Short
tt0212278\tshort\tKineto's Side-Splitters No. 1\tKineto's Side-Splitters No. 1\t0\t1915\t\\N\t\\N\tShort
";

const RATINGS: &str = "tconst\taverageRating\tnumVotes
tt0000001\t5.7\t1845
tt0000002\t6.0\t236
tt0000003\t6.5\t1603
tt0000004\t6.0\t153
tt0000005\t6.2\t2424
tt0000006\t5.2\t158
tt0000007\t5.4\t758
tt0000008\t5.5\t1988
tt0000009\t5.9\t191
tt0000010\t6.9\t6636
";

/// Ten times the average rating written as `text`, cut to a whole number.
fn tenths(text: &str) -> Option<u8> {
    let value = text.parse::<f32>().ok()?;
    let scaled = value * 10.0;
    if (0.0..256.0).contains(&scaled) {
        Some(scaled as u8)
    } else {
        None
    }
}

fn ratings_from(text: &str) -> Result<Ratings, RatingsError> {
    let mut ratings = Ratings::new();
    for line in text.lines().skip(1) {
        ratings.add_line(line, tenths)?;
    }
    Ok(ratings)
}

fn make_ratings() -> Ratings {
    ratings_from(RATINGS).unwrap()
}

fn tsv_import(ratings: &str, basics: &str, movies: &mut Vec<u8>, series: &mut Vec<u8>) -> Result<(), TitleError> {
    let ratings = ratings_from(ratings).unwrap();
    for line in basics.lines().skip(1) {
        import_title_line(line, &ratings, movies, series)?;
    }
    Ok(())
}

fn basics_without_last() -> String {
    let lines: Vec<&str> = BASICS.lines().collect();
    lines[..lines.len() - 1].join("\n")
}

fn make_db_impl() -> DbImpl {
    let mut db_impl = DbImpl::with_capacity(10);
    let ratings = make_ratings();
    for line in BASICS.lines().skip(1) {
        match Title::from_tsv(line.as_bytes(), &ratings).unwrap() {
            TsvAction::Skip => {}
            TsvAction::Movie(title) => db_impl.store_title(title),
            TsvAction::Series(_) => panic!("Invalid test contents"),
        }
    }
    db_impl
}

fn make_service_db_from_binary() -> ServiceDbFromBinary {
    let mut movies_storage = Vec::new();
    let mut series_storage = Vec::new();
    tsv_import(RATINGS, BASICS, &mut movies_storage, &mut series_storage).unwrap();
    ServiceDbFromBinary::new(&movies_storage, &series_storage).unwrap()
}

fn id(text: &str) -> TitleId {
    TitleId::try_from(text.as_bytes()).unwrap()
}

#[test]
fn title_test_title() {
    let mut ratings = Ratings::new();
    ratings.insert(1, Rating::new(57, 1846));

    let title = Title::from_tsv(
        b"tt0000001\tshort\tCarmencita\tCarmencita\t0\t1894\t\\N\t1\tDocumentary,Short",
        &ratings,
    )
    .unwrap();
    let title: Option<Title> = title.into_option();
    let title = title.unwrap();

    assert_eq!(title.title_id().as_str(), "tt0000001");
    assert_eq!(title.title_type(), TitleType::Short);
    assert_eq!(title.primary_title(), "Carmencita");
    assert_eq!(title.original_title(), None);
    assert!(!title.is_adult());
    assert_eq!(title.start_year().unwrap(), 1894);
    assert_eq!(title.runtime().unwrap().as_secs(), 60);

    let mut genres_iter = title.genres().iter();
    assert_eq!(genres_iter.next().unwrap(), Genre::Documentary);
    assert_eq!(genres_iter.next().unwrap(), Genre::Short);

    assert_eq!(title.rating().unwrap().rating(), 57);
    assert_eq!(title.rating().unwrap().votes(), 1846);

    let binary = title.to_binary();

    let (title_parsed, used) = Title::from_binary(&binary).unwrap();

    assert_eq!(title, title_parsed);
    assert_eq!(used, binary.len());
}

#[test]
fn ratings_test_ratings_csv() {
    let ratings = make_ratings();
    assert_eq!(ratings.len(), 10);

    let id1 = id("tt0000001");
    assert_eq!(ratings.get(id1.as_usize()), Some(Rating::new(57, 1845)));

    let id10 = id("tt0000010");
    assert_eq!(ratings.get(id10.as_usize()), Some(Rating::new(69, 6636)));

    let id11 = id("tt0000011");
    assert_eq!(ratings.get(id11.as_usize()), None);
}

#[test]
fn db_test_to_binary() {
    let mut movies_storage = Vec::new();
    let mut series_storage = Vec::new();
    tsv_import(RATINGS, BASICS, &mut movies_storage, &mut series_storage).unwrap();

    let ratings = make_ratings();
    let mut titles_from_tsv = Vec::new();
    for line in BASICS.lines().skip(1) {
        let title = Title::from_tsv(line.as_bytes(), &ratings).unwrap();
        let title: Option<Title> = title.into_option();
        titles_from_tsv.push(title.unwrap());
    }

    let mut titles_from_binary = Vec::new();
    let mut cursor: &[u8] = &movies_storage;
    loop {
        if cursor.is_empty() {
            break;
        }
        let (title, used) = Title::from_binary(cursor).unwrap();
        titles_from_binary.push(title);
        cursor = &cursor[used..];
    }

    assert_eq!(titles_from_tsv, titles_from_binary);
}

#[test]
fn db_impl_test_by_title() {
    let db_impl = make_db_impl();
    let title = SearchString::try_from("Corbett and Courtney Before the Kinetograph").unwrap();
    let titles = db_impl.by_title(&title);
    assert_eq!(titles.len(), 1);
    let title = titles[0];
    assert_eq!(title.title_id(), &id("tt0000007"));
    assert_eq!(title.primary_title(), "Corbett and Courtney Before the Kinetograph");
}

#[test]
fn db_impl_test_by_title_and_year() {
    let db_impl = make_db_impl();
    let title = SearchString::try_from("Corbett and Courtney Before the Kinetograph").unwrap();
    let titles = db_impl.by_title_and_year(&title, 1894);
    assert_eq!(titles.len(), 1);
    let title = titles[0];
    assert_eq!(title.title_id(), &id("tt0000007"));
    assert_eq!(title.primary_title(), "Corbett and Courtney Before the Kinetograph");
}

#[test]
fn db_impl_test_by_keywords() {
    let keywords = [SearchString::try_from("Corbett").unwrap(), SearchString::try_from("Courtney").unwrap()];
    let matcher = KeywordMatcher::new(&keywords).unwrap();
    let db_impl = make_db_impl();
    let titles = db_impl.by_keywords(&matcher);
    assert_eq!(titles.len(), 1);
    let title = titles[0];
    assert_eq!(title.title_id(), &id("tt0000007"));
    assert_eq!(title.primary_title(), "Corbett and Courtney Before the Kinetograph");
}

#[test]
fn db_impl_test_by_keywords_and_year() {
    let keywords = [SearchString::try_from("Corbett").unwrap(), SearchString::try_from("Courtney").unwrap()];
    let matcher = KeywordMatcher::new(&keywords).unwrap();
    let db_impl = make_db_impl();
    let titles = db_impl.by_keywords_and_year(&matcher, 1894);
    assert_eq!(titles.len(), 1);
    let title = titles[0];
    assert_eq!(title.title_id(), &id("tt0000007"));
    assert_eq!(title.primary_title(), "Corbett and Courtney Before the Kinetograph");
}

#[test]
fn db_binary_test_n_entries() {
    let service_db = make_service_db_from_binary();
    assert_eq!(service_db.n_entries(), (11, 0));
}

#[test]
fn db_binary_test_by_id() {
    let service_db = make_service_db_from_binary();
    let title = service_db.by_id(&id("tt0000007"), Query::Movies).unwrap();
    assert_eq!(title.title_id(), &id("tt0000007"));
    assert_eq!(title.primary_title(), "Corbett and Courtney Before the Kinetograph");
}

#[test]
fn db_binary_test_by_title() {
    let service_db = make_service_db_from_binary();
    let title = SearchString::try_from("Corbett and Courtney Before the Kinetograph").unwrap();
    let titles = service_db.by_title(&title, Query::Movies);
    assert_eq!(titles.len(), 1);
    let title = titles[0];
    assert_eq!(title.title_id(), &id("tt0000007"));
    assert_eq!(title.primary_title(), "Corbett and Courtney Before the Kinetograph");
}

#[test]
fn db_binary_test_by_title_and_year() {
    let service_db = make_service_db_from_binary();
    let title = SearchString::try_from("Corbett and Courtney Before the Kinetograph").unwrap();
    let titles = service_db.by_title_and_year(&title, 1894, Query::Movies);
    assert_eq!(titles.len(), 1);
    let title = titles[0];
    assert_eq!(title.title_id(), &id("tt0000007"));
    assert_eq!(title.primary_title(), "Corbett and Courtney Before the Kinetograph");
}

#[test]
fn db_binary_test_by_keywords() {
    let keywords = [SearchString::try_from("Corbett").unwrap()];
    let matcher = KeywordMatcher::new(&keywords).unwrap();
    let service_db = make_service_db_from_binary();
    let titles = service_db.by_keywords(&matcher, Query::Movies);
    assert_eq!(titles.len(), 1);
    let title = titles[0];
    assert_eq!(title.title_id(), &id("tt0000007"));
    assert_eq!(title.primary_title(), "Corbett and Courtney Before the Kinetograph");
}

#[test]
fn db_binary_test_by_keywords_and_year() {
    let keywords = [SearchString::try_from("Kineto").unwrap()];
    let matcher = KeywordMatcher::new(&keywords).unwrap();
    let service_db = make_service_db_from_binary();
    let titles = service_db.by_keywords_and_year(&matcher, 1915, Query::Movies);
    assert_eq!(titles.len(), 1);
    let title = titles[0];
    assert_eq!(title.title_id(), &id("tt0212278"));
    assert_eq!(title.primary_title(), "Kineto's Side-Splitters No. 1");
}

#[test]
fn db_new_test_n_entries() {
    let mut movies_storage = Vec::new();
    let mut series_storage = Vec::new();
    tsv_import(RATINGS, &basics_without_last(), &mut movies_storage, &mut series_storage).unwrap();
    let service_db = ServiceDbFromBinary::new(&movies_storage, &series_storage).unwrap();
    assert_eq!(service_db.n_entries(), (10, 0));
}

#[test]
fn db_new_test_by_id() {
    let mut movies_storage = Vec::new();
    let mut series_storage = Vec::new();
    tsv_import(RATINGS, &basics_without_last(), &mut movies_storage, &mut series_storage).unwrap();
    let service_db = ServiceDbFromBinary::new(&movies_storage, &series_storage).unwrap();
    let title = service_db.by_id(&id("tt0000007"), Query::Movies).unwrap();
    assert_eq!(title.title_id(), &id("tt0000007"));
    assert_eq!(title.primary_title(), "Corbett and Courtney Before the Kinetograph");
}

#[test]
fn db_new_test_by_title() {
    let mut movies_storage = Vec::new();
    let mut series_storage = Vec::new();
    tsv_import(RATINGS, &basics_without_last(), &mut movies_storage, &mut series_storage).unwrap();
    let service_db = ServiceDbFromBinary::new(&movies_storage, &series_storage).unwrap();
    let title = SearchString::try_from("Corbett and Courtney Before the Kinetograph").unwrap();
    let titles = service_db.by_title(&title, Query::Movies);
    assert_eq!(titles.len(), 1);
    let title = titles[0];
    assert_eq!(title.title_id(), &id("tt0000007"));
    assert_eq!(title.primary_title(), "Corbett and Courtney Before the Kinetograph");
}

#[test]
fn original_and_transliterated_titles_are_found() {
    let db_impl = make_db_impl();
    for text in [
        "Leaving the Factory",
        "LA SORTIE DE L'USINE LUMIÈRE À LYON",
        "la sortie de l'usine lumiere a lyon",
    ] {
        let titles = db_impl.by_title(&SearchString::try_from(text).unwrap());
        assert_eq!(titles.len(), 1, "{text}");
        assert_eq!(titles[0].title_id(), &id("tt0000010"));
    }
    let wrong_year = db_impl.by_title_and_year(&SearchString::try_from("Leaving the Factory").unwrap(), 1896);
    assert!(wrong_year.is_empty());
    let by_year = db_impl.by_title_and_year(&SearchString::try_from("Kineto's Side-Splitters No. 1").unwrap(), 1915);
    assert_eq!(by_year.len(), 1);
}

#[test]
fn store_then_find_by_id_gives_the_last_stored() {
    let ratings = Ratings::new();
    let mut db_impl = DbImpl::with_capacity(0);
    assert!(db_impl.by_id(&id("tt0000001")).is_none());
    let first = Title::from_tsv(b"tt0000001\tmovie\tFirst\tFirst\t0\t1990\t\\N\t90\tDrama", &ratings).unwrap();
    let second = Title::from_tsv(b"tt0000001\tmovie\tSecond\tSecond\t0\t1991\t\\N\t95\tDrama", &ratings).unwrap();
    db_impl.store_title(first.into_option().unwrap());
    assert_eq!(db_impl.by_id(&id("tt1")).unwrap().primary_title(), "First");
    db_impl.store_title(second.into_option().unwrap());
    assert_eq!(db_impl.n_titles(), 2);
    assert_eq!(db_impl.by_id(&id("tt0000001")).unwrap().primary_title(), "Second");
    assert_eq!(db_impl.by_title(&SearchString::try_from("first").unwrap()).len(), 1);
}

#[test]
fn title_lines_that_are_skipped_or_wrong() {
    let ratings = Ratings::new();
    let skip = |line: &str| matches!(Title::from_tsv(line.as_bytes(), &ratings), Ok(TsvAction::Skip));
    assert!(skip("tt0000001\ttvEpisode\tA\tA\t0\t1990\t\\N\t30\tDrama"));
    assert!(skip("tt0000001\tmovie\tA\tA\t1\t1990\t\\N\t30\tDrama"));
    let error = |line: &str| Title::from_tsv(line.as_bytes(), &ratings).err();
    assert_eq!(error("tt0000001\tplay\tA\tA\t0\t1990\t\\N\t30\tDrama"), Some(TitleError::TitleType));
    assert_eq!(error("tt0000001\tmovie\tA\tA\t2\t1990\t\\N\t30\tDrama"), Some(TitleError::Adult));
    assert_eq!(error("tt0000001\tmovie\tA\tA\t0\tyear\t\\N\t30\tDrama"), Some(TitleError::StartYear));
    assert_eq!(error("tt0000001\tmovie\tA\tA\t0\t1990\tend\t30\tDrama"), Some(TitleError::EndYear));
    assert_eq!(error("tt0000001\tmovie\tA\tA\t0\t1990\t\\N\tlong\tDrama"), Some(TitleError::RuntimeMinutes));
    assert_eq!(error("tt0000001\tmovie\tA\tA\t0\t1990\t\\N\t30\tCartoon"), Some(TitleError::Genre));
    assert_eq!(error("tt0000001\tmovie\tA\tA\t0\t1990\t\\N\t30"), Some(TitleError::Eof));
    assert_eq!(
        error("xx0000001\tmovie\tA\tA\t0\t1990\t\\N\t30\tDrama"),
        Some(TitleError::IdParsing(TitleIdError::Id("xx0000001".to_owned())))
    );
    let series = Title::from_tsv(b"tt0000002\ttvMiniSeries\tA\tB\t0\t\\N\t\\N\t\\N\t\\N", &ratings).unwrap();
    match series {
        TsvAction::Series(t) => {
            assert_eq!(t.original_title(), Some("B"));
            assert_eq!(t.start_year(), None);
            assert_eq!(t.runtime(), None);
            assert_eq!(t.rating(), None);
            assert_eq!(t.genres().to_vec(), Vec::<Genre>::new());
            assert_eq!(t.title_type(), TitleType::TvMiniSeries);
        }
        _ => panic!("expected a series"),
    }
}

#[test]
fn rating_lines_that_are_wrong() {
    let mut ratings = Ratings::new();
    assert_eq!(ratings.add_line("tt0000001\t5.7\t1845\n", tenths), Ok(()));
    assert_eq!(ratings.add_line("   \n", tenths), Ok(()));
    assert_eq!(ratings.add_line("tt0000001\t5.0\t10", tenths), Err(RatingsError::DuplicateId("tt0000001".to_owned())));
    assert_eq!(ratings.get(1), Some(Rating::new(50, 10)));
    assert_eq!(ratings.add_line("tt0000002\tgood\t10", tenths), Err(RatingsError::InvalidRating("good".to_owned())));
    assert_eq!(ratings.add_line("tt0000002\t5.0", tenths), Err(RatingsError::Eof));
    assert_eq!(ratings.add_line("tt0000002", tenths), Err(RatingsError::Eof));
    assert_eq!(ratings.add_line("tt0000002\t5.0\tmany", tenths), Err(RatingsError::Votes));
    assert_eq!(
        ratings.add_line("ttx\t5.0\t1", tenths),
        Err(RatingsError::IdParsing(TitleIdError::IdNumber("ttx".to_owned())))
    );
    assert_eq!(ratings.len(), 1);
}

#[test]
fn import_appends_binary_forms_to_movies_or_series() {
    let ratings = make_ratings();
    let mut movies = Vec::new();
    let mut series = Vec::new();
    import_title_line("tt0000001\tshort\tCarmencita\tCarmencita\t0\t1894\t\\N\t1\tDocumentary,Short\n", &ratings, &mut movies, &mut series)
        .unwrap();
    import_title_line("tt0000002\ttvSeries\tA Show\tA Show\t0\t2000\t2001\t30\tDrama", &ratings, &mut movies, &mut series).unwrap();
    import_title_line("tt0000003\ttvEpisode\tAn Episode\tAn Episode\t0\t2000\t\\N\t30\tDrama", &ratings, &mut movies, &mut series)
        .unwrap();
    import_title_line("\n", &ratings, &mut movies, &mut series).unwrap();
    let (movie, used) = Title::from_binary(&movies).unwrap();
    assert_eq!(used, movies.len());
    assert_eq!(movie.primary_title(), "Carmencita");
    assert_eq!(movie.rating(), Some(Rating::new(57, 1845)));
    let (show, used) = Title::from_binary(&series).unwrap();
    assert_eq!(used, series.len());
    assert_eq!(show.primary_title(), "A Show");
    assert_eq!(show.title_type(), TitleType::TvSeries);
}

#[test]
fn binary_reading_in_chunks_and_errors() {
    let mut movies = Vec::new();
    let mut series = Vec::new();
    tsv_import(RATINGS, BASICS, &mut movies, &mut series).unwrap();
    let (first, used) = Title::read_titles(&movies, 3).unwrap();
    assert_eq!(first.len(), 3);
    let (rest, used_rest) = Title::read_titles(&movies[used..], 100).unwrap();
    assert_eq!(rest.len(), 8);
    assert_eq!(used + used_rest, movies.len());
    assert_eq!(Title::from_binary(&movies[..22]).err(), Some(TitleError::Eof));
    let (_, used10) = Title::read_titles(&movies, 10).unwrap();
    assert_eq!(Title::read_titles(&movies[..used10 + 10], 100).err(), Some(TitleError::Eof));
    let loaded = Service::from_binary(&movies[..used10 + 10], &series);
    assert!(matches!(loaded, Err(LoadError::LoadingTitle(TitleError::Eof))));
    let service = Service::from_binary(&movies, &series).unwrap();
    assert_eq!(service.n_entries(), (11, 0));
}

#[test]
fn service_searches_by_keywords() {
    let mut movies = Vec::new();
    let mut series = Vec::new();
    tsv_import(RATINGS, BASICS, &mut movies, &mut series).unwrap();
    let service = Service::from_binary(&movies, &series).unwrap();
    let keywords = [SearchString::try_from("kineto").unwrap()];
    let found = service.by_keywords(&keywords, Query::Movies).unwrap();
    let ids: Vec<&str> = found.iter().map(|t| t.title_id().as_str()).collect();
    assert_eq!(ids, vec!["tt0000007", "tt0000008", "tt0212278"]);
    let found = service.by_keywords_and_year(&keywords, 1894, Query::Movies).unwrap();
    assert_eq!(found.len(), 2);
    assert!(service.by_keywords(&keywords, Query::Series).unwrap().is_empty());
    let everything = service.by_keywords(&[], Query::Movies).unwrap();
    assert_eq!(everything.len(), 13);
}

#[test]
fn db_keeps_movies_and_series_apart() {
    let ratings = Ratings::new();
    let mut db = Db::with_capacities(1, 1);
    let movie = Title::from_tsv(b"tt0000001\tmovie\tSame\tSame\t0\t2000\t\\N\t90\tDrama", &ratings).unwrap();
    let series = Title::from_tsv(b"tt0000002\ttvSeries\tSame\tSame\t0\t2000\t\\N\t30\tDrama", &ratings).unwrap();
    db.store_movie(movie.into_option().unwrap());
    db.store_series(series.into_option().unwrap());
    assert_eq!(db.n_movies(), 1);
    assert_eq!(db.n_series(), 1);
    assert_eq!(db.n_entries(), 2);
    let same = SearchString::try_from("SAME").unwrap();
    assert_eq!(db.by_title(&same, Query::Movies)[0].title_id(), &id("tt0000001"));
    assert_eq!(db.by_title(&same, Query::Series)[0].title_id(), &id("tt0000002"));
    assert_eq!(db.by_title_and_year(&same, 2000, Query::Series).len(), 1);
    assert!(db.by_id(&id("tt0000002"), Query::Movies).is_none());
    assert!(db.by_id(&id("tt0000002"), Query::Series).is_some());
}

#[test]
fn keyword_matches_hold_every_keyword() {
    let keywords = [SearchString::try_from("foo").unwrap(), SearchString::try_from("bar").unwrap()];
    let matcher = KeywordMatcher::new(&keywords).unwrap();
    assert!(matcher.matches(b"xfooybar"));
    assert!(matcher.matches(b"barfoo"));
    assert!(!matcher.matches(b"foofoo"));
    let overlapping = [SearchString::try_from("ab").unwrap(), SearchString::try_from("b").unwrap()];
    let matcher = KeywordMatcher::new(&overlapping).unwrap();
    assert!(!matcher.matches(b"ab"));
    assert!(matcher.matches(b"ab b"));
}

#[test]
fn parsed_titles_tell_their_line() {
    let ratings = Ratings::new();
    let line: &[u8] = b"tt0000002\tmovie\tThe Matrix\tTHE MATRIX\t0\t1999\t\\N\t136\tAction,Sci-Fi";
    let t = match Title::from_tsv(line, &ratings).unwrap() {
        TsvAction::Movie(t) => t,
        _ => panic!("expected a movie"),
    };
    assert_eq!(t.title_id().as_str(), "tt0000002");
    assert_eq!(t.title_type(), TitleType::Movie);
    assert_eq!(t.primary_title(), "The Matrix");
    assert_eq!(t.original_title(), None);
    assert!(!t.is_adult());
    assert_eq!(t.start_year(), Some(1999));
    assert_eq!(t.runtime(), Some(std::time::Duration::from_secs(8160)));
    assert_eq!(t.rating(), None);
    let mut genres = t.genres().iter();
    assert_eq!(genres.next(), Some(Genre::Action));
    assert_eq!(genres.next(), Some(Genre::SciFi));
    assert_eq!(genres.next(), None);

    assert!(matches!(Title::from_tsv(b"tt0000004\ttvEpisode\tPilot", &ratings), Ok(TsvAction::Skip)));
    let series = Title::from_tsv(b"tt0000005\ttvSeries\tDark\tDark\t0\t2017\t2020\t60\tCrime,Drama", &ratings);
    match series {
        Ok(TsvAction::Series(t)) => assert_eq!(t.title_type(), TitleType::TvSeries),
        _ => panic!("expected a series"),
    }
    assert!(matches!(
        Title::from_tsv(b"tt0000006\tmovie\tX\tX\t1\t1999\t\\N\t90\tDrama", &ratings),
        Ok(TsvAction::Skip)
    ));
}
