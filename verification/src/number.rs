//! Reading decimal numbers from bytes.

use vstd::prelude::*;

use atoi::FromRadix10;

verus! {

/// Whether `b` is an ASCII decimal digit.
pub open spec fn is_digit(b: u8) -> bool {
    48 <= b <= 57
}

/// The number of ASCII decimal digits at the start of `s`.
pub open spec fn digit_run(s: Seq<u8>) -> nat
    decreases s.len(),
{
    if s.len() > 0 && is_digit(s[0]) {
        1 + digit_run(s.drop_first())
    } else {
        0
    }
}

/// The value of the decimal digits `s`, most significant first.
pub open spec fn decimal_value(s: Seq<u8>) -> nat
    decreases s.len(),
{
    if s.len() == 0 {
        0
    } else {
        decimal_value(s.drop_last()) * 10 + (s.last() - 48) as nat
    }
}

/// The value of the decimal digits at the start of `s`.
pub open spec fn leading_value(s: Seq<u8>) -> nat {
    decimal_value(s.take(digit_run(s) as int))
}

/// What `atoi` reads from `text` for an unsigned type whose largest value is `max`: an
/// optional `+` or `-` sign, then the decimal digits that follow. Nothing is read if there is
/// neither a sign nor a digit; after a `-` only zero is read; a value above `max` is not read.
pub open spec fn atoi_unsigned(text: Seq<u8>, max: nat) -> Option<nat> {
    let signed = text.len() > 0 && (text[0] == 43u8 || text[0] == 45u8);
    let rest = if signed {
        text.drop_first()
    } else {
        text
    };
    let n = digit_run(rest);
    let v = leading_value(rest);
    if !signed && n == 0 {
        None
    } else if signed && text[0] == 45u8 {
        if v == 0 {
            Some(0)
        } else {
            None
        }
    } else if v <= max {
        Some(v)
    } else {
        None
    }
}

/// Reads a `u16` at the start of `text` with `atoi::atoi`.
#[verifier::external_body]
pub fn atoi_u16(text: &[u8]) -> (r: Option<u16>)
    ensures
        match atoi_unsigned(text@, 0xffff) {
            Some(v) => r == Some(v as u16),
            None => r is None,
        },
{
    atoi::atoi::<u16>(text)
}

/// Reads a `u32` at the start of `text` with `atoi::atoi`.
#[verifier::external_body]
pub fn atoi_u32(text: &[u8]) -> (r: Option<u32>)
    ensures
        match atoi_unsigned(text@, 0xffff_ffff) {
            Some(v) => r == Some(v as u32),
            None => r is None,
        },
{
    atoi::atoi::<u32>(text)
}

/// Reads the decimal digits at the start of `text` as a `usize` with
/// `atoi::FromRadix10::from_radix_10`, which gives the value and the number of digits read.
#[verifier::external_body]
pub fn usize_from_radix_10(text: &[u8]) -> (r: (usize, usize))
    requires
        leading_value(text@) <= usize::MAX,
    ensures
        r.1 == digit_run(text@),
        r.0 == leading_value(text@),
{
    usize::from_radix_10(text)
}

/// The digits at the start of a sequence are at most the whole sequence.
pub proof fn lemma_digit_run_len(s: Seq<u8>)
    ensures
        digit_run(s) <= s.len(),
        forall|k: int| 0 <= k < digit_run(s) ==> is_digit(#[trigger] s[k]),
        digit_run(s) < s.len() ==> !is_digit(s[digit_run(s) as int]),
    decreases s.len(),
{
    if s.len() > 0 && is_digit(s[0]) {
        lemma_digit_run_len(s.drop_first());
        assert forall|k: int| 0 <= k < digit_run(s) implies is_digit(#[trigger] s[k]) by {
            if k > 0 {
                assert(s[k] == s.drop_first()[k - 1]);
            }
        }
    }
}

/// The value of more leading digits is at least that of fewer.
proof fn lemma_decimal_value_grows(s: Seq<u8>, k: int, j: int)
    requires
        0 <= k <= j <= s.len(),
        forall|m: int| 0 <= m < j ==> is_digit(#[trigger] s[m]),
    ensures
        decimal_value(s.take(k)) <= decimal_value(s.take(j)),
    decreases j - k,
{
    if k < j {
        lemma_decimal_value_grows(s, k, j - 1);
        assert(s.take(j).drop_last() =~= s.take(j - 1));
    }
}

/// Returns whether the value of the decimal digits at the start of `text` fits a `usize`.
pub fn leading_value_fits(text: &[u8]) -> (r: bool)
    ensures
        r == (leading_value(text@) <= usize::MAX),
{
    let mut v: u128 = 0;
    let mut i: usize = 0;
    proof {
        lemma_digit_run_len(text@);
        assert(text@.take(0) =~= Seq::<u8>::empty());
    }
    while i < text.len() && 48 <= text[i] && text[i] <= 57
        invariant
            i <= text@.len(),
            i <= digit_run(text@),
            v == decimal_value(text@.take(i as int)),
            v <= usize::MAX,
            forall|m: int| 0 <= m < digit_run(text@) ==> is_digit(#[trigger] text@[m]),
            digit_run(text@) <= text@.len(),
            digit_run(text@) < text@.len() ==> !is_digit(text@[digit_run(text@) as int]),
        decreases text@.len() - i,
    {
        proof {
            assert(text@.take(i + 1).drop_last() =~= text@.take(i as int));
            if i == digit_run(text@) {
                assert(!is_digit(text@[i as int]));
            }
        }
        v = v * 10 + (text[i] - 48) as u128;
        i += 1;
        if v > usize::MAX as u128 {
            proof {
                lemma_decimal_value_grows(text@, i as int, digit_run(text@) as int);
            }
            return false;
        }
    }
    proof {
        if i < digit_run(text@) {
            assert(is_digit(text@[i as int]));
        }
    }
    true
}

} // verus!
