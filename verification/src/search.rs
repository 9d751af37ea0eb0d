//! Search strings: lowercase, non-empty texts to look titles up by.

use vstd::prelude::*;

use crate::text::{lowercase_of, to_lowercase};

verus! {

/// Errors when making search strings.
#[derive(Debug, Clone, Copy, PartialEq, Eq, Structural)]
pub enum SearchStringErr {
    /// The text to search for is empty.
    IsEmpty,
}

impl SearchStringErr {
    /// The message that describes the error.
    pub fn message(&self) -> (r: &'static str)
        ensures
            r@ == "Search title or keyword is empty"@,
    {
        match self {
            SearchStringErr::IsEmpty => "Search title or keyword is empty",
        }
    }
}

/// A lowercase text made from a non-empty text, to search titles by.
pub struct SearchString {
    contents: String,
}

impl SearchString {
    /// The text of the search string.
    pub closed spec fn view(&self) -> Seq<char> {
        self.contents@
    }

    /// Makes a search string from a text: its lowercase form; an empty text is an error.
    pub fn try_from(value: &str) -> (r: Result<SearchString, SearchStringErr>)
        ensures
            value@.len() == 0 <==> r == Err::<SearchString, SearchStringErr>(SearchStringErr::IsEmpty),
            r matches Ok(s) ==> s.view() == lowercase_of(value@),
    {
        if value.unicode_len() == 0 {
            return Err(SearchStringErr::IsEmpty);
        }
        Ok(SearchString { contents: to_lowercase(value) })
    }

    /// Returns the search string as text.
    pub fn as_str(&self) -> (r: &str)
        ensures
            r@ == self.view(),
    {
        self.contents.as_str()
    }

    /// Returns the bytes of the search string.
    pub fn as_bytes(&self) -> (r: &[u8])
        ensures
            r@ == vstd::utf8::encode_utf8(self.view()),
    {
        self.contents.as_str().as_bytes()
    }

    /// Turns the search string into its text.
    pub fn into_string(self) -> (r: String)
        ensures
            r@ == self.view(),
    {
        self.contents
    }
}

} // verus!
