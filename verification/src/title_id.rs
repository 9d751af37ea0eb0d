//! IMDB title identifiers (`tt` followed by a decimal number).

use vstd::prelude::*;
use vstd::std_specs::cmp::PartialEqSpecImpl;
use vstd::utf8::*;

use crate::number::{digit_run, leading_value, usize_from_radix_10, lemma_digit_run_len};
use crate::text::utf8_to_string;

verus! {

/// Errors when parsing title IDs.
#[derive(Debug, Clone, PartialEq, Eq)]
pub enum TitleIdError {
    /// The ID does not start with `tt`.
    Id(String),
    /// The ID does not continue with a valid number.
    IdNumber(String),
}

/// Whether `b` starts with `tt`.
pub open spec fn starts_with_tt(b: Seq<u8>) -> bool {
    b.len() >= 2 && b[0] == 116u8 && b[1] == 116u8
}

/// Whether `b` is `tt` followed by one or more ASCII decimal digits and nothing else.
pub open spec fn is_title_id(b: Seq<u8>) -> bool {
    starts_with_tt(b) && b.len() > 2 && digit_run(b.skip(2)) == b.len() - 2
}

/// The number of a title ID written as `b`.
pub open spec fn title_id_number(b: Seq<u8>) -> nat {
    leading_value(b.skip(2))
}

/// The inputs that `TitleId::try_from` takes: valid UTF-8 whose number, after the first two
/// bytes, fits a `usize`.
pub open spec fn title_id_input(b: Seq<u8>) -> bool {
    &&& valid_utf8(b)
    &&& b.len() >= 2 ==> leading_value(b.skip(2)) <= usize::MAX
}

/// Returns whether `TitleId::try_from` takes `bytes`: valid UTF-8 whose number, after the
/// first two bytes, fits a `usize`.
pub fn title_id_input_ok(bytes: &[u8]) -> (r: bool)
    ensures
        r == title_id_input(bytes@),
{
    if utf8_to_string(bytes).is_none() {
        return false;
    }
    if bytes.len() < 2 {
        return true;
    }
    let num = vstd::slice::slice_subrange(bytes, 2, bytes.len());
    assert(num@ =~= bytes@.skip(2));
    crate::number::leading_value_fits(num)
}

/// The ID of a title, as text and as number.
#[derive(Debug, Clone)]
pub struct TitleId {
    text: String,
    num: usize,
}

impl TitleId {
    /// The text of the ID is `tt` and digits, and the number is their value.
    pub closed spec fn wf(self) -> bool {
        &&& is_title_id(encode_utf8(self.text@))
        &&& self.num == title_id_number(encode_utf8(self.text@))
    }

    /// The bytes of the ID.
    pub closed spec fn spec_bytes(self) -> Seq<u8> {
        encode_utf8(self.text@)
    }

    /// The text of the ID.
    pub closed spec fn spec_text(self) -> Seq<char> {
        self.text@
    }

    /// The number of the ID.
    pub closed spec fn spec_num(self) -> usize {
        self.num
    }

    /// The bytes of an ID are `tt` followed by digits whose value is its number, and its text
    /// is their decoding.
    pub proof fn lemma_wf(self)
        requires
            self.wf(),
        ensures
            is_title_id(self.spec_bytes()),
            self.spec_num() == title_id_number(self.spec_bytes()),
            valid_utf8(self.spec_bytes()),
            decode_utf8(self.spec_bytes()) == self.spec_text(),
    {
        encode_utf8_valid_utf8(self.text@);
        encode_utf8_decode_utf8(self.text@);
    }

    /// Parses a title ID from its bytes: `tt` followed by one or more digits. Bytes that do not
    /// start with `tt` give `Id`, and `tt` followed by anything but one or more digits gives
    /// `IdNumber`, each with the bytes as text.
    pub fn try_from(bytes: &[u8]) -> (r: Result<TitleId, TitleIdError>)
        requires
            title_id_input(bytes@),
        ensures
            r matches Ok(id) ==> id.wf() && is_title_id(bytes@) && id.spec_bytes() == bytes@ && id.spec_num()
                == title_id_number(bytes@),
            r matches Err(e) ==> TitleId::try_from_error(bytes@, e),
            r is Ok <==> is_title_id(bytes@),
    {
        let text = match utf8_to_string(bytes) {
            Some(t) => t,
            None => {
                proof {
                    assert(false);
                }
                return Err(TitleIdError::Id(String::new()));
            },
        };
        proof {
            decode_utf8_encode_utf8(bytes@);
        }
        if bytes.len() < 2 || !(bytes[0] == 116u8 && bytes[1] == 116u8) {
            return Err(TitleIdError::Id(text));
        }
        let num = vstd::slice::slice_subrange(bytes, 2, bytes.len());
        let num_len = num.len();
        let (val, len) = usize_from_radix_10(num);
        if num_len == 0 || len != num_len {
            return Err(TitleIdError::IdNumber(text));
        }
        proof {
            assert(num@ =~= bytes@.skip(2));
        }
        Ok(TitleId { text, num: val })
    }

    /// Whether `e` is the error that `try_from` gives for `bytes`.
    pub open spec fn try_from_error(bytes: Seq<u8>, e: TitleIdError) -> bool {
        match e {
            TitleIdError::Id(s) => !starts_with_tt(bytes) && s@ == decode_utf8(bytes),
            TitleIdError::IdNumber(s) => starts_with_tt(bytes) && !is_title_id(bytes) && s@
                == decode_utf8(bytes),
        }
    }

    /// Returns the ID as bytes.
    pub fn as_bytes(&self) -> (r: &[u8])
        ensures
            r@ == self.spec_bytes(),
    {
        self.text.as_str().as_bytes()
    }

    /// Returns the ID as text.
    pub fn as_str(&self) -> (r: &str)
        ensures
            r@ == self.spec_text(),
    {
        self.text.as_str()
    }

    /// Returns the number of the ID.
    pub fn as_usize(&self) -> (r: usize)
        ensures
            r == self.spec_num(),
    {
        self.num
    }
}

impl PartialEq for TitleId {
    fn eq(&self, other: &Self) -> (r: bool) {
        self.num == other.num
    }
}

impl PartialEqSpecImpl for TitleId {
    open spec fn obeys_eq_spec() -> bool {
        true
    }

    open spec fn eq_spec(&self, other: &TitleId) -> bool {
        self.spec_num() == other.spec_num()
    }
}

impl Eq for TitleId {

}

} // verus!
