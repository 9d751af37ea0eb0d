use tvrank::cli::{
    create_keywords_set, display_keywords, display_title_and_year, get_log_level, merge_general_opts, no_color_requested,
    parse_title_and_year, GeneralOpts, KeywordSetErr, LogLevel,
};
use tvrank::db::Query;
use tvrank::import::import_title_line;
use tvrank::mem::MemSize;
use tvrank::print::{header_cells, JsonPrinter, LinkError, OutputFormat, RatingStyle, ResultsMessage, TablePrinter, YamlPrinter, results_message};
use tvrank::rating::{Rating, Ratings};
use tvrank::results::SearchRes;
use tvrank::scan::{is_known_id, scan_movie_entry, scan_series_entry, search_title, ScanEnd, ScanState, SearchError};
use tvrank::search::{SearchString, SearchStringErr};
use tvrank::service::Service;
use tvrank::title::{Title, TsvAction};
use tvrank::title_id::TitleId;

const SAMPLE: &str = "tt0000001\tshort\tCarmencita\tCarmencita\t0\t1894\t\\N\t1\tDocumentary,Short
tt0000007\tshort\tCorbett and Courtney Before the Kinetograph\tCorbett and Courtney Before the Kinetograph\t0\t1894\t\\N\t1\tShort,Sport
tt0000010\tshort\tLeaving the Factory\tLa sortie de l'usine Lumière à Lyon\t0\t1895\t\\N\t1\tDocumentary,Short
tt0000020\tmovie\tTwins\tTwins\t0\t1988\t\\N\t107\tComedy
tt0000021\tmovie\tTwins\tTwins\t0\t1988\t\\N\t90\tDrama
tt0000030\ttvSeries\tThe Office\tThe Office\t0\t2005\t2013\t22\tComedy
tt0000031\ttvSeries\tThe Office\tThe Office\t0\t2001\t2003\t30\tComedy
";

fn sample_ratings() -> Ratings {
    let mut ratings = Ratings::new();
    ratings.insert(1, Rating::new(57, 1845));
    ratings.insert(7, Rating::new(54, 758));
    ratings.insert(10, Rating::new(69, 6636));
    ratings.insert(20, Rating::new(61, 10));
    ratings.insert(21, Rating::new(61, 20));
    ratings.insert(30, Rating::new(90, 500));
    ratings
}

fn sample_service() -> Service {
    let ratings = sample_ratings();
    let mut movies = Vec::new();
    let mut series = Vec::new();
    for line in SAMPLE.lines() {
        import_title_line(line, &ratings, &mut movies, &mut series).unwrap();
    }
    Service::from_binary(&movies, &series).unwrap()
}

fn sample_title(line: &str) -> Title {
    match Title::from_tsv(line.as_bytes(), &sample_ratings()).unwrap() {
        TsvAction::Movie(t) | TsvAction::Series(t) => t,
        TsvAction::Skip => panic!("skipped"),
    }
}

fn ids(titles: &[&Title]) -> Vec<String> {
    titles.iter().map(|t| t.title_id().as_str().to_owned()).collect()
}

#[test]
fn title_and_year_is_read() {
    assert_eq!(parse_title_and_year("Foo (2000)"), Some(("Foo", 2000)));
    assert_eq!(parse_title_and_year("The Matrix (1999)"), Some(("The Matrix", 1999)));
    assert_eq!(parse_title_and_year("Foo Bar  (1999)"), Some(("Foo Bar ", 1999)));
    assert_eq!(parse_title_and_year("Foo\u{3000}(0042)"), Some(("Foo", 42)));
    assert_eq!(parse_title_and_year("Foo\n (2000)"), Some(("Foo", 2000)));
    assert_eq!(parse_title_and_year("Fo\no (2000)"), None);
    assert_eq!(parse_title_and_year("Foo(2000)"), None);
    assert_eq!(parse_title_and_year(" (2000)"), None);
    assert_eq!(parse_title_and_year("Foo (20001)"), None);
    assert_eq!(parse_title_and_year("Foo (abcd)"), None);
    assert_eq!(parse_title_and_year("Foo (2000) "), None);
    assert_eq!(parse_title_and_year(""), None);
    assert_eq!(parse_title_and_year("Title (12\u{663}4)"), Some(("Title", 12)));
    assert_eq!(parse_title_and_year("Title (\u{663}\u{663}\u{663}\u{663})"), None);
    assert_eq!(parse_title_and_year("Title (\u{ff12}\u{ff10}\u{ff10}\u{ff10})"), None);
    assert_eq!(parse_title_and_year("Title (19\u{1d7ce}\u{1d7ff})"), Some(("Title", 19)));
    assert_eq!(parse_title_and_year("Title (19\u{b2}9)"), None);
}

#[test]
fn title_and_year_is_shown() {
    assert_eq!(display_title_and_year("Foo", 2000), "Foo (2000)");
    assert_eq!(display_title_and_year("Foo", 7), "Foo (7)");
    assert_eq!(display_title_and_year("", 0), " (0)");
    let (title, year) = parse_title_and_year("Lumière (1895)").unwrap();
    assert_eq!(display_title_and_year(title, year), "Lumière (1895)");
}

#[test]
fn keywords_are_made_from_words() {
    let texts = |ks: Vec<SearchString>| ks.iter().map(|k| k.as_str().to_owned()).collect::<Vec<_>>();
    assert_eq!(texts(create_keywords_set("The Godfather  part").unwrap()), vec!["the", "godfather", "part"]);
    assert_eq!(texts(create_keywords_set("a Matrix a").unwrap()), vec!["matrix"]);
    assert_eq!(texts(create_keywords_set("X").unwrap()), vec!["x"]);
    assert_eq!(texts(create_keywords_set("a b").unwrap()), Vec::<String>::new());
    assert_eq!(texts(create_keywords_set("Foo foo").unwrap()), vec!["foo", "foo"]);
    assert_eq!(texts(create_keywords_set("é ab").unwrap()), vec!["é", "ab"]);
    assert_eq!(create_keywords_set(" \t ").err(), Some(KeywordSetErr::EmptyKeywords));
    assert_eq!(create_keywords_set("").err(), Some(KeywordSetErr::EmptyKeywords));
    let keywords = create_keywords_set("Corbett Courtney").unwrap();
    assert_eq!(display_keywords(&keywords), "corbett, courtney");
    assert_eq!(display_keywords(&[]), "");
}

#[test]
fn general_options_are_merged() {
    let locals = GeneralOpts { force_update: false, color: false, verbose: 0 };
    let globals = GeneralOpts { force_update: true, color: false, verbose: 3 };
    assert_eq!(merge_general_opts(locals, globals, true), GeneralOpts { force_update: true, color: false, verbose: 3 });
    assert_eq!(merge_general_opts(locals, globals, false), GeneralOpts { force_update: true, color: true, verbose: 3 });
    let locals = GeneralOpts { force_update: false, color: true, verbose: 1 };
    assert_eq!(merge_general_opts(locals, globals, true), GeneralOpts { force_update: true, color: true, verbose: 1 });
    assert!(no_color_requested(Some("1")));
    assert!(no_color_requested(Some("")));
    assert!(!no_color_requested(Some("0")));
    assert!(!no_color_requested(None));
}

#[test]
fn log_levels_follow_verbosity() {
    assert_eq!(get_log_level(0), LogLevel::Off);
    assert_eq!(get_log_level(1), LogLevel::Error);
    assert_eq!(get_log_level(2), LogLevel::Warn);
    assert_eq!(get_log_level(3), LogLevel::Info);
    assert_eq!(get_log_level(4), LogLevel::Debug);
    assert_eq!(get_log_level(5), LogLevel::Trace);
    assert_eq!(get_log_level(200), LogLevel::Trace);
}

#[test]
fn output_formats_and_printers() {
    assert_eq!(OutputFormat::from_name("json"), Some(OutputFormat::Json));
    assert_eq!(OutputFormat::from_name("table"), Some(OutputFormat::Table));
    assert_eq!(OutputFormat::from_name("yaml"), Some(OutputFormat::Yaml));
    assert_eq!(OutputFormat::from_name("Table"), None);
    assert_eq!(JsonPrinter::new().get_format(), OutputFormat::Json);
    assert_eq!(YamlPrinter::new().get_format(), OutputFormat::Yaml);
    let printer = TablePrinter::new(true);
    assert!(printer.color);
    assert_eq!(printer.get_format(), OutputFormat::Table);
    assert_eq!(header_cells().len(), 10);
    assert_eq!(header_cells()[0], "Primary Title");
    assert_eq!(header_cells()[9], "IMDB Link");
}

#[test]
fn table_rows_show_title_information() {
    const IMDB: &str = "https://www.imdb.com/title/";
    let title = sample_title(SAMPLE.lines().next().unwrap());
    let row = TablePrinter::new(true).create_table_row(&title, IMDB).unwrap();
    assert_eq!(
        row.cells,
        vec![
            "Carmencita",
            "",
            "1894",
            "57/100",
            "1845",
            "1m",
            "Documentary, Short",
            "Short Movie",
            "tt0000001",
            "https://www.imdb.com/title/tt0000001"
        ]
    );
    assert_eq!(row.rating_style, Some(RatingStyle::Red));
    assert_eq!(TablePrinter::new(false).create_table_row(&title, IMDB).unwrap().rating_style, None);

    let title = sample_title(SAMPLE.lines().nth(2).unwrap());
    let row = TablePrinter::new(true).create_table_row(&title, IMDB).unwrap();
    assert_eq!(row.cells[1], "La sortie de l'usine Lumière à...");
    assert_eq!(row.rating_style, Some(RatingStyle::Yellow));

    let long = "tt0000099\tmovie\tA Title That Is Quite A Lot Longer Than Fifty Characters\tX\t0\t\\N\t\\N\t125\tDrama";
    let title = sample_title(long);
    let row = TablePrinter::new(true).create_table_row(&title, IMDB).unwrap();
    assert_eq!(row.cells[0], "A Title That Is Quite A Lot Longer Than Fifty Char...");
    assert_eq!(row.cells[2], "");
    assert_eq!(row.cells[3], "");
    assert_eq!(row.cells[5], "2h 5m");
    assert_eq!(row.cells[9], "https://www.imdb.com/title/tt0000099");
    assert_eq!(row.rating_style, None);

    let joined = TablePrinter::new(false).create_table_row(&title, "https://www.imdb.com/title").unwrap();
    assert_eq!(joined.cells[9], "https://www.imdb.com/tt0000099");
    assert!(matches!(
        TablePrinter::new(false).create_table_row(&title, "not a url"),
        Err(LinkError::Join(_))
    ));
}

#[test]
fn results_messages() {
    let m = results_message(Query::Movies, 0, 0, false, Some("foo"));
    assert!(matches!(m, ResultsMessage::NoMatches(ref s) if s == "No movie matches found for `foo`"));
    let m = results_message(Query::Series, 0, 0, false, None);
    assert!(matches!(m, ResultsMessage::NoMatches(ref s) if s == "No series matches found"));
    let m = results_message(Query::Movies, 3, 2, true, Some("foo"));
    assert!(matches!(m, ResultsMessage::Found(ref s) if s == "Found 3 movie matches for `foo`, 2 will be displayed:"));
    let m = results_message(Query::Series, 1, 1, false, None);
    assert!(matches!(m, ResultsMessage::Found(ref s) if s == "Found 1 series match:"));
    let m = results_message(Query::Movies, 12, 5, true, None);
    assert!(matches!(m, ResultsMessage::Found(ref s) if s == "Found 12 movie matches, 5 will be displayed:"));
    assert_eq!(Query::Movies.name(), "movie");
    assert_eq!(Query::Series.name(), "series");
}

#[test]
fn results_are_ranked_by_rating_then_year_then_title() {
    let titles: Vec<Title> = SAMPLE.lines().map(sample_title).collect();
    let mut res = SearchRes::new(false, None);
    for t in &titles {
        res.push(t);
    }
    assert_eq!(res.total_len(), 7);
    assert!(!res.is_truncated());
    let ranked = ids(res.top_sorted_results());
    assert_eq!(ranked, vec!["tt0000030", "tt0000010", "tt0000021", "tt0000020", "tt0000001", "tt0000007", "tt0000031"]);

    let mut by_year = SearchRes::new(true, Some(3));
    for t in &titles {
        by_year.push(t);
    }
    assert_eq!(by_year.len(), 3);
    assert!(by_year.is_truncated());
    assert_eq!(ids(by_year.top_sorted_results()), vec!["tt0000030", "tt0000031", "tt0000021"]);
    assert_eq!(by_year.total_len(), 7);

    let mut same_key = SearchRes::new(false, Some(10));
    let twins = sample_title("tt0000040\tmovie\tB\tB\t0\t1990\t\\N\t1\tDrama");
    let other = sample_title("tt0000041\tmovie\tA\tA\t0\t1990\t\\N\t1\tDrama");
    same_key.extend(vec![&other, &twins]);
    assert!(!same_key.is_empty());
    assert_eq!(ids(same_key.top_sorted_results()), vec!["tt0000040", "tt0000041"]);
    assert!(SearchRes::new(false, None).is_empty());
}

#[test]
fn directory_scans_decide_what_to_show() {
    let service = sample_service();
    let mut state = ScanState::new();
    assert_eq!(state.end(), ScanEnd::NoValidNames);
    let mut results = SearchRes::new(false, None);

    let local = scan_movie_entry(&service, None, "not a title", true, &mut state, &mut results).unwrap();
    assert!(local.is_none());
    assert_eq!(state, ScanState { at_least_one: false, at_least_one_matched: false });

    let local = scan_movie_entry(&service, None, "Unknown (1894)", true, &mut state, &mut results).unwrap();
    let local = local.unwrap();
    assert!(local.results.is_empty());
    assert_eq!(local.terms, "Unknown (1894)");
    assert_eq!(state.end(), ScanEnd::NoneMatched);

    let local = scan_movie_entry(&service, None, "Carmencita (1894)", true, &mut state, &mut results).unwrap();
    assert!(local.is_none());
    assert_eq!(results.total_len(), 1);
    assert_eq!(state.end(), ScanEnd::Show);

    let local = scan_movie_entry(&service, None, "Twins (1988)", true, &mut state, &mut results).unwrap();
    assert_eq!(local.unwrap().results.total_len(), 2);
    let local = scan_movie_entry(&service, None, "Twins (1988)", false, &mut state, &mut results).unwrap();
    assert!(local.is_none());
    assert_eq!(results.total_len(), 3);

    let known = TitleId::try_from(b"tt0000010").unwrap();
    let local = scan_movie_entry(&service, Some(&known), "whatever", true, &mut state, &mut results).unwrap();
    assert!(local.is_none());
    assert_eq!(results.total_len(), 4);

    let mut series_state = ScanState::new();
    let mut series = SearchRes::new(false, None);
    let local = scan_series_entry(&service, None, "The Office", true, &mut series_state, &mut series).unwrap();
    assert_eq!(local.unwrap().results.total_len(), 2);
    assert_eq!(series_state.end(), ScanEnd::Show);
    let local = scan_series_entry(&service, None, "The Office (2001)", true, &mut series_state, &mut series).unwrap();
    assert!(local.is_none());
    assert_eq!(series.total_len(), 1);
    assert_eq!(
        scan_series_entry(&service, None, "", true, &mut series_state, &mut series).err(),
        Some(SearchStringErr::IsEmpty)
    );

    let mut id_state = ScanState::new();
    let mut id_results = SearchRes::new(false, None);
    let local = scan_movie_entry(&service, Some(&known), "whatever", true, &mut id_state, &mut id_results).unwrap();
    assert!(local.is_none());
    assert_eq!(id_state, ScanState { at_least_one: true, at_least_one_matched: true });
    assert_eq!(id_state.end(), ScanEnd::Show);
    assert_eq!(id_results.total_len(), 1);

    assert!(is_known_id(&service, &known));
    assert!(is_known_id(&service, &TitleId::try_from(b"tt0000030").unwrap()));
    assert!(!is_known_id(&service, &TitleId::try_from(b"tt0000099").unwrap()));
}

#[test]
fn searches_by_title_or_keywords() {
    let service = sample_service();
    let mut found = search_title(&service, "Carmencita (1894)", true, false, None).unwrap();
    assert_eq!(ids(found.movies.top_sorted_results()), vec!["tt0000001"]);
    assert!(found.series.is_empty());
    assert_eq!(found.terms, "Carmencita (1894)");

    let mut found = search_title(&service, "the office", true, false, None).unwrap();
    assert_eq!(ids(found.series.top_sorted_results()), vec!["tt0000030", "tt0000031"]);
    assert_eq!(found.terms, "the office");

    let mut found = search_title(&service, "Kinetograph Corbett", false, false, None).unwrap();
    assert_eq!(ids(found.movies.top_sorted_results()), vec!["tt0000007"]);
    assert_eq!(found.terms, "kinetograph, corbett");

    let found = search_title(&service, "Office (2001)", false, false, None).unwrap();
    assert_eq!(found.series.total_len(), 1);
    assert_eq!(found.terms, "Office (2001)");

    assert_eq!(search_title(&service, "", true, false, None).err(), Some(SearchError::SearchString(SearchStringErr::IsEmpty)));
    assert_eq!(search_title(&service, "   ", false, false, None).err(), Some(SearchError::EmptyKeywords));
}

#[test]
fn memory_sizes() {
    assert_eq!(5u8.mem_size(), 1);
    assert_eq!(5u64.mem_size(), 8);
    assert_eq!('x'.mem_size(), 4);
    assert_eq!(String::from("abc").mem_size(), std::mem::size_of::<String>() + 3);
    assert_eq!(vec![1u16, 2u16].mem_size(), std::mem::size_of::<Vec<u16>>() + 4);
    assert_eq!(Some(3u32).mem_size(), std::mem::size_of::<Option<u32>>() + 4);
    assert_eq!(None::<u32>.mem_size(), std::mem::size_of::<Option<u32>>());
    assert_eq!((1u8, 2u64).mem_size(), std::mem::size_of::<(u8, u64)>() + 9);
    assert_eq!(std::rc::Rc::new(7u32).mem_size(), std::mem::size_of::<std::rc::Rc<u32>>() + 4);
}
