use tvrank::search::{SearchString, SearchStringErr};

#[test]
#[should_panic]
fn empty() {
    let _ = SearchString::try_from("").unwrap();
}

#[test]
fn lowercase() {
    let value = "hello";
    let search_string = SearchString::try_from(value).unwrap();
    assert_eq!(value, search_string.as_str());
}

#[test]
fn non_lowercase() {
    let value = "HeLLo";
    let search_string = SearchString::try_from(value).unwrap();
    assert_eq!(value.to_lowercase(), search_string.as_str());
}

#[test]
fn empty_search_string_is_an_error() {
    assert_eq!(SearchString::try_from("").err(), Some(SearchStringErr::IsEmpty));
    assert_eq!(SearchStringErr::IsEmpty.message(), "Search title or keyword is empty");
}

#[test]
fn search_string_lowercases_unicode() {
    let s = SearchString::try_from("ÉCOLE Lumière").unwrap();
    assert_eq!(s.as_str(), "école lumière");
    assert_eq!(s.as_bytes(), "école lumière".as_bytes());
    assert_eq!(s.into_string(), String::from("école lumière"));
}
