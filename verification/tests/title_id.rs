use tvrank::title_id::{TitleId, TitleIdError};

#[test]
fn numeric() {
    let id = TitleId::try_from("tt0000001".as_bytes()).unwrap();
    assert_eq!(id.as_bytes(), "tt0000001".as_bytes());
    assert_eq!(id.as_str(), "tt0000001");
    assert_eq!(id.as_usize(), 1);
}

#[test]
fn non_numeric() {
    let id = TitleId::try_from("ttabc".as_bytes());
    assert_eq!(id, Err(TitleIdError::IdNumber("ttabc".to_owned())));
}

#[test]
fn trailing_non_numeric() {
    let id = TitleId::try_from("tt0000001abc".as_bytes());
    assert_eq!(id, Err(TitleIdError::IdNumber("tt0000001abc".to_owned())));
}

#[test]
fn id_without_tt_is_an_error() {
    let id = TitleId::try_from("nm0000001".as_bytes());
    assert_eq!(id, Err(TitleIdError::Id("nm0000001".to_owned())));
}

#[test]
fn ids_are_equal_by_number() {
    let a = TitleId::try_from("tt0000042".as_bytes()).unwrap();
    let b = TitleId::try_from("tt42".as_bytes()).unwrap();
    assert_eq!(a, b);
    assert_eq!(a.as_usize(), 42);
    assert_ne!(a.as_str(), b.as_str());
}

#[test]
fn tt_without_number_is_an_error() {
    assert_eq!(TitleId::try_from(b"tt"), Err(TitleIdError::IdNumber("tt".to_owned())));
}

#[test]
fn ids_shorter_than_tt_are_errors() {
    assert_eq!(TitleId::try_from(b""), Err(TitleIdError::Id(String::new())));
    assert_eq!(TitleId::try_from(b"t"), Err(TitleIdError::Id("t".to_owned())));
}
