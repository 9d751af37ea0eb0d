use tvrank::import::title_line_ok;
use tvrank::number::leading_value_fits;
use tvrank::rating::{rating_line_ok, Rating, Ratings, RatingsError};
use tvrank::title::Title;
use tvrank::title_id::{title_id_input_ok, TitleIdError};
use tvrank::update::{needs_update, older_than, total_content_length};

#[test]
fn databases_are_updated_when_old_or_forced() {
    let month: u128 = 30 * 24 * 60 * 60 * 1_000_000_000;
    assert!(older_than(None, month));
    assert!(older_than(Some(month), month));
    assert!(older_than(Some(month + 1), month));
    assert!(!older_than(Some(month - 1), month));
    assert!(!needs_update(false, false, false));
    assert!(needs_update(true, false, false));
    assert!(needs_update(false, true, false));
    assert!(needs_update(false, false, true));
    assert_eq!(total_content_length(Some(10), Some(32)), Some(42));
    assert_eq!(total_content_length(None, Some(32)), None);
    assert_eq!(total_content_length(Some(10), None), None);
}

#[test]
fn title_id_inputs_are_checked() {
    assert!(title_id_input_ok(b"tt0000001"));
    assert!(title_id_input_ok(b"tt"));
    assert!(title_id_input_ok(b"xyz"));
    assert!(title_id_input_ok(b"t"));
    assert!(title_id_input_ok(b""));
    assert!(!title_id_input_ok(&[0xff]));
    assert!(!title_id_input_ok(&[b't', b't', 0xff]));
    assert!(!title_id_input_ok(b"tt99999999999999999999999999"));
    assert!(leading_value_fits(b"18446744073709551615") || usize::BITS < 64);
    assert!(!leading_value_fits(b"99999999999999999999999"));
    assert!(leading_value_fits(b"12abc"));
    assert!(leading_value_fits(b""));
}

#[test]
fn data_lines_are_checked() {
    assert!(rating_line_ok("tt0000001\t5.7\t1845"));
    assert!(rating_line_ok("  \n"));
    assert!(rating_line_ok("t\t5.7\t1845"));
    let mut short_ids = Ratings::new();
    assert_eq!(
        short_ids.add_line("t\t5.7\t1845", |_| Some(57)),
        Err(RatingsError::IdParsing(TitleIdError::Id("t".to_owned())))
    );
    assert!(!rating_line_ok("tt99999999999999999999999999\t5.7\t1845"));
    let mut ratings = Ratings::new();
    ratings.insert(1, Rating::new(57, 1845));
    ratings.insert(2, Rating::new(57, 0x800000));
    assert!(title_line_ok("tt0000001\tshort\tCarmencita\tCarmencita\t0\t1894\t\\N\t1\tDocumentary,Short\n", &ratings));
    assert!(title_line_ok("\n", &ratings));
    assert!(!title_line_ok("tt0000003\tmovie\tOld\tOld\t0\t1800\t\\N\t1\tDrama", &ratings));
    assert!(title_line_ok("tt0000003\tmovie\tOld\tOld\t1\t1800\t\\N\t1\tDrama", &ratings));
    assert!(title_line_ok("tt0000003\ttvEpisode\tOld\tOld\t0\t1800\t\\N\t1\tDrama", &ratings));
    assert!(!title_line_ok("tt0000002\tmovie\tPopular\tPopular\t0\t2000\t\\N\t1\tDrama", &ratings));
    assert!(title_line_ok("x\tmovie\tA\tA\t0\t2000\t\\N\t1\tDrama", &ratings));
    assert!(!title_line_ok("tt99999999999999999999999999\tmovie\tA\tA\t0\t2000\t\\N\t1\tDrama", &ratings));
    assert!(Title::tsv_line_ok(b"tt0000004\tmovie\tA\tA\t0\t1801\t\\N\t1\tDrama", &ratings));
    assert!(!Title::tsv_line_ok(&[b't', b't', b'1', b'\t', 0xc3], &ratings));
}

#[test]
fn binary_forms_are_checked() {
    let ratings = Ratings::new();
    let title = Title::from_tsv(b"tt0000001\tmovie\tAbc\tXyz\t0\t1990\t\\N\t90\tDrama", &ratings).unwrap().into_option().unwrap();
    let binary = title.to_binary();
    assert!(Title::binary_input_ok(&binary));
    assert!(Title::binary_all_ok(&binary));
    let mut two = binary.clone();
    two.extend_from_slice(&binary);
    assert!(Title::binary_all_ok(&two));
    assert!(Title::binary_all_ok(&[]));
    assert!(Title::binary_all_ok(&binary[..10]));
    assert!(!Title::binary_input_ok(&binary[..binary.len() - 1]));
    assert!(!Title::binary_all_ok(&two[..two.len() - 1]));
    let mut bad_utf8 = binary.clone();
    let last = bad_utf8.len() - 1;
    bad_utf8[last] = 0xff;
    assert!(!Title::binary_input_ok(&bad_utf8));
}
