//! The logic of the command line tool: reading `TITLE (YYYY)`, making keyword sets, and the
//! general options.

use vstd::prelude::*;

use crate::number::{atoi_u16, atoi_unsigned};
use crate::search::{SearchString, SearchStringErr};
use crate::text::{is_white_space, is_whitespace, lowercase_of};

verus! {

/// Whether `c` is a decimal digit of Unicode (general category `Nd`), which `\d` matches.
pub open spec fn is_decimal_digit(c: char) -> bool {
    let v = c as u32;
    ||| 0x30 <= v <= 0x39
    ||| 0x660 <= v <= 0x669
    ||| 0x6F0 <= v <= 0x6F9
    ||| 0x7C0 <= v <= 0x7C9
    ||| 0x966 <= v <= 0x96F
    ||| 0x9E6 <= v <= 0x9EF
    ||| 0xA66 <= v <= 0xA6F
    ||| 0xAE6 <= v <= 0xAEF
    ||| 0xB66 <= v <= 0xB6F
    ||| 0xBE6 <= v <= 0xBEF
    ||| 0xC66 <= v <= 0xC6F
    ||| 0xCE6 <= v <= 0xCEF
    ||| 0xD66 <= v <= 0xD6F
    ||| 0xDE6 <= v <= 0xDEF
    ||| 0xE50 <= v <= 0xE59
    ||| 0xED0 <= v <= 0xED9
    ||| 0xF20 <= v <= 0xF29
    ||| 0x1040 <= v <= 0x1049
    ||| 0x1090 <= v <= 0x1099
    ||| 0x17E0 <= v <= 0x17E9
    ||| 0x1810 <= v <= 0x1819
    ||| 0x1946 <= v <= 0x194F
    ||| 0x19D0 <= v <= 0x19D9
    ||| 0x1A80 <= v <= 0x1A89
    ||| 0x1A90 <= v <= 0x1A99
    ||| 0x1B50 <= v <= 0x1B59
    ||| 0x1BB0 <= v <= 0x1BB9
    ||| 0x1C40 <= v <= 0x1C49
    ||| 0x1C50 <= v <= 0x1C59
    ||| 0xA620 <= v <= 0xA629
    ||| 0xA8D0 <= v <= 0xA8D9
    ||| 0xA900 <= v <= 0xA909
    ||| 0xA9D0 <= v <= 0xA9D9
    ||| 0xA9F0 <= v <= 0xA9F9
    ||| 0xAA50 <= v <= 0xAA59
    ||| 0xABF0 <= v <= 0xABF9
    ||| 0xFF10 <= v <= 0xFF19
    ||| 0x104A0 <= v <= 0x104A9
    ||| 0x10D30 <= v <= 0x10D39
    ||| 0x10D40 <= v <= 0x10D49
    ||| 0x11066 <= v <= 0x1106F
    ||| 0x110F0 <= v <= 0x110F9
    ||| 0x11136 <= v <= 0x1113F
    ||| 0x111D0 <= v <= 0x111D9
    ||| 0x112F0 <= v <= 0x112F9
    ||| 0x11450 <= v <= 0x11459
    ||| 0x114D0 <= v <= 0x114D9
    ||| 0x11650 <= v <= 0x11659
    ||| 0x116C0 <= v <= 0x116C9
    ||| 0x116D0 <= v <= 0x116E3
    ||| 0x11730 <= v <= 0x11739
    ||| 0x118E0 <= v <= 0x118E9
    ||| 0x11950 <= v <= 0x11959
    ||| 0x11BF0 <= v <= 0x11BF9
    ||| 0x11C50 <= v <= 0x11C59
    ||| 0x11D50 <= v <= 0x11D59
    ||| 0x11DA0 <= v <= 0x11DA9
    ||| 0x11F50 <= v <= 0x11F59
    ||| 0x16130 <= v <= 0x16139
    ||| 0x16A60 <= v <= 0x16A69
    ||| 0x16AC0 <= v <= 0x16AC9
    ||| 0x16B50 <= v <= 0x16B59
    ||| 0x16D70 <= v <= 0x16D79
    ||| 0x1CCF0 <= v <= 0x1CCF9
    ||| 0x1D7CE <= v <= 0x1D7FF
    ||| 0x1E140 <= v <= 0x1E149
    ||| 0x1E2F0 <= v <= 0x1E2F9
    ||| 0x1E4F0 <= v <= 0x1E4F9
    ||| 0x1E5F1 <= v <= 0x1E5FA
    ||| 0x1E950 <= v <= 0x1E959
    ||| 0x1FBF0 <= v <= 0x1FBF9
}

/// Returns whether `c` is a decimal digit of Unicode (general category `Nd`).
pub fn decimal_digit_char(c: char) -> (r: bool)
    ensures
        r == is_decimal_digit(c),
{
    let v = c as u32;
    (0x30 <= v && v <= 0x39) ||
        (0x660 <= v && v <= 0x669) ||
        (0x6F0 <= v && v <= 0x6F9) ||
        (0x7C0 <= v && v <= 0x7C9) ||
        (0x966 <= v && v <= 0x96F) ||
        (0x9E6 <= v && v <= 0x9EF) ||
        (0xA66 <= v && v <= 0xA6F) ||
        (0xAE6 <= v && v <= 0xAEF) ||
        (0xB66 <= v && v <= 0xB6F) ||
        (0xBE6 <= v && v <= 0xBEF) ||
        (0xC66 <= v && v <= 0xC6F) ||
        (0xCE6 <= v && v <= 0xCEF) ||
        (0xD66 <= v && v <= 0xD6F) ||
        (0xDE6 <= v && v <= 0xDEF) ||
        (0xE50 <= v && v <= 0xE59) ||
        (0xED0 <= v && v <= 0xED9) ||
        (0xF20 <= v && v <= 0xF29) ||
        (0x1040 <= v && v <= 0x1049) ||
        (0x1090 <= v && v <= 0x1099) ||
        (0x17E0 <= v && v <= 0x17E9) ||
        (0x1810 <= v && v <= 0x1819) ||
        (0x1946 <= v && v <= 0x194F) ||
        (0x19D0 <= v && v <= 0x19D9) ||
        (0x1A80 <= v && v <= 0x1A89) ||
        (0x1A90 <= v && v <= 0x1A99) ||
        (0x1B50 <= v && v <= 0x1B59) ||
        (0x1BB0 <= v && v <= 0x1BB9) ||
        (0x1C40 <= v && v <= 0x1C49) ||
        (0x1C50 <= v && v <= 0x1C59) ||
        (0xA620 <= v && v <= 0xA629) ||
        (0xA8D0 <= v && v <= 0xA8D9) ||
        (0xA900 <= v && v <= 0xA909) ||
        (0xA9D0 <= v && v <= 0xA9D9) ||
        (0xA9F0 <= v && v <= 0xA9F9) ||
        (0xAA50 <= v && v <= 0xAA59) ||
        (0xABF0 <= v && v <= 0xABF9) ||
        (0xFF10 <= v && v <= 0xFF19) ||
        (0x104A0 <= v && v <= 0x104A9) ||
        (0x10D30 <= v && v <= 0x10D39) ||
        (0x10D40 <= v && v <= 0x10D49) ||
        (0x11066 <= v && v <= 0x1106F) ||
        (0x110F0 <= v && v <= 0x110F9) ||
        (0x11136 <= v && v <= 0x1113F) ||
        (0x111D0 <= v && v <= 0x111D9) ||
        (0x112F0 <= v && v <= 0x112F9) ||
        (0x11450 <= v && v <= 0x11459) ||
        (0x114D0 <= v && v <= 0x114D9) ||
        (0x11650 <= v && v <= 0x11659) ||
        (0x116C0 <= v && v <= 0x116C9) ||
        (0x116D0 <= v && v <= 0x116E3) ||
        (0x11730 <= v && v <= 0x11739) ||
        (0x118E0 <= v && v <= 0x118E9) ||
        (0x11950 <= v && v <= 0x11959) ||
        (0x11BF0 <= v && v <= 0x11BF9) ||
        (0x11C50 <= v && v <= 0x11C59) ||
        (0x11D50 <= v && v <= 0x11D59) ||
        (0x11DA0 <= v && v <= 0x11DA9) ||
        (0x11F50 <= v && v <= 0x11F59) ||
        (0x16130 <= v && v <= 0x16139) ||
        (0x16A60 <= v && v <= 0x16A69) ||
        (0x16AC0 <= v && v <= 0x16AC9) ||
        (0x16B50 <= v && v <= 0x16B59) ||
        (0x16D70 <= v && v <= 0x16D79) ||
        (0x1CCF0 <= v && v <= 0x1CCF9) ||
        (0x1D7CE <= v && v <= 0x1D7FF) ||
        (0x1E140 <= v && v <= 0x1E149) ||
        (0x1E2F0 <= v && v <= 0x1E2F9) ||
        (0x1E4F0 <= v && v <= 0x1E4F9) ||
        (0x1E5F1 <= v && v <= 0x1E5FA) ||
        (0x1E950 <= v && v <= 0x1E959) ||
        (0x1FBF0 <= v && v <= 0x1FBF9)
}

/// Whether a title may end at `k` in `s`, before the `(` at `p`: the title is not empty and has
/// no line break, and only white space, at least one, lies between it and the `(`.
pub open spec fn title_end_ok(s: Seq<char>, k: int, p: int) -> bool {
    &&& 1 <= k < p
    &&& forall|i: int| 0 <= i < k ==> s[i] != '\n'
    &&& forall|i: int| k <= i < p ==> is_white_space(#[trigger] s[i])
}

/// Whether `s` ends with `(`, four decimal digits and `)`.
pub open spec fn ends_with_year(s: Seq<char>) -> bool {
    let n = s.len() as int;
    &&& n >= 6
    &&& s[n - 6] == '('
    &&& s[n - 1] == ')'
    &&& forall|i: int| n - 5 <= i < n - 1 ==> is_decimal_digit(#[trigger] s[i])
}

/// The four digits that `s` ends with, before its last character.
pub open spec fn year_digits(s: Seq<char>) -> Seq<char> {
    s.subrange(s.len() - 5, s.len() - 1)
}

/// What `TITLE (YYYY)` reading gives for `s`: the title, as long as it can be, and the year,
/// when `s` is a non-empty title without line breaks, white space, and `(`, four decimal
/// digits and `)`. The year is what `atoi` reads from the digits' bytes, the ASCII digits
/// they start with; there is none when they do not start with one.
pub open spec fn title_and_year(s: Seq<char>) -> Option<(Seq<char>, u16)> {
    let p = s.len() as int - 6;
    if ends_with_year(s) && exists|k: int| title_end_ok(s, k, p) {
        match atoi_unsigned(vstd::utf8::encode_utf8(year_digits(s)), 0xffff) {
            Some(y) => {
                let k = choose|k: int|
                    title_end_ok(s, k, p) && forall|j: int| k < j < p ==> !title_end_ok(s, j, p);
                Some((s.take(k), y as u16))
            },
            None => None,
        }
    } else {
        None
    }
}

/// Reads `TITLE (YYYY)`: a title, white space and a year of four decimal digits in brackets,
/// read by `atoi`. The title is as long as it can be: it ends at the last white space before
/// the `(`, or at the first line break if that comes within the white space.
pub fn parse_title_and_year(input: &str) -> (r: Option<(&str, u16)>)
    ensures
        match title_and_year(input@) {
            Some((t, y)) => r matches Some((rt, ry)) && rt@ == t && ry == y,
            None => r is None,
        },
        r matches Some((rt, _)) ==> rt@.len() > 0,
{
    let ghost s = input@;
    let n = input.unicode_len();
    if n < 6 {
        return None;
    }
    let p = n - 6;
    if input.get_char(p) != '(' || input.get_char(n - 1) != ')' {
        return None;
    }
    let mut i = n - 5;
    while i < n - 1
        invariant
            s == input@,
            n == s.len(),
            n >= 6,
            n - 5 <= i <= n - 1,
            forall|j: int| n - 5 <= j < i ==> is_decimal_digit(#[trigger] s[j]),
        decreases n - 1 - i,
    {
        if !decimal_digit_char(input.get_char(i)) {
            return None;
        }
        i += 1;
    }
    let digits = input.substring_char(n - 5, n - 1);
    let year = match atoi_u16(digits.as_bytes()) {
        Some(y) => y,
        None => {
            return None;
        },
    };
    // The white space before the `(` starts at `q`.
    let mut q = p;
    while q > 0 && is_whitespace(input.get_char(q - 1))
        invariant
            s == input@,
            q <= p,
            p + 6 == s.len(),
            forall|j: int| q <= j < p ==> is_white_space(#[trigger] s[j]),
        decreases q,
    {
        q -= 1;
    }
    // The first line break, or `p` if there is none before it.
    let mut nl: usize = 0;
    while nl < p && input.get_char(nl) != '\n'
        invariant
            s == input@,
            nl <= p,
            p + 6 == s.len(),
            forall|j: int| 0 <= j < nl ==> s[j] != '\n',
        decreases p - nl,
    {
        nl += 1;
    }
    let k = if p == 0 || nl < p - 1 {
        nl
    } else {
        p - 1
    };
    proof {
        lemma_title_end(s, p as int, q as int, nl as int, k as int);
    }
    if p == 0 || k < q || k < 1 {
        return None;
    }
    Some((input.substring_char(0, k), year))
}

/// The title ends at the first line break if it comes within the white space before the
/// `(`, else just before the last white space; no later end is possible.
proof fn lemma_title_end(s: Seq<char>, p: int, q: int, nl: int, k: int)
    requires
        0 <= q <= p,
        p + 6 == s.len(),
        0 <= nl <= p,
        forall|j: int| q <= j < p ==> is_white_space(#[trigger] s[j]),
        q > 0 ==> !is_white_space(s[q - 1]),
        forall|j: int| 0 <= j < nl ==> s[j] != '\n',
        nl < p ==> s[nl] == '\n',
        k == if p == 0 || nl < p - 1 {
            nl
        } else {
            p - 1
        },
    ensures
        (exists|j: int| title_end_ok(s, j, p)) <==> (p > 0 && k >= q && k >= 1),
        p > 0 && k >= q && k >= 1 ==> title_end_ok(s, k, p) && forall|j: int|
            k < j < p ==> !title_end_ok(s, j, p),
{
    if exists|j: int| title_end_ok(s, j, p) {
        let j = choose|j: int| title_end_ok(s, j, p);
        if j < q {
            assert(is_white_space(s[q - 1]));
        }
        if j > nl {
            assert(s[nl] == '\n');
        }
    }
    if p > 0 && k >= q && k >= 1 {
        assert(title_end_ok(s, k, p));
        assert forall|j: int| k < j < p implies !title_end_ok(s, j, p) by {
            assert(nl < p - 1);
            assert(s[nl] == '\n');
        }
    }
}

/// The decimal digit character of `d`, for `d` below ten.
pub open spec fn digit_char(d: nat) -> char {
    (d + '0' as nat) as char
}

/// The decimal text of `v`.
pub open spec fn decimal_text(v: nat) -> Seq<char>
    decreases v,
{
    if v < 10 {
        seq![digit_char(v)]
    } else {
        decimal_text(v / 10).push(digit_char(v % 10))
    }
}

/// The text of one decimal digit.
fn digit_str(d: u64) -> (r: &'static str)
    requires
        d < 10,
    ensures
        r@ == seq![digit_char(d as nat)],
{
    proof {
        reveal_strlit("0");
        reveal_strlit("1");
        reveal_strlit("2");
        reveal_strlit("3");
        reveal_strlit("4");
        reveal_strlit("5");
        reveal_strlit("6");
        reveal_strlit("7");
        reveal_strlit("8");
        reveal_strlit("9");
    }
    let r = if d == 0 {
        "0"
    } else if d == 1 {
        "1"
    } else if d == 2 {
        "2"
    } else if d == 3 {
        "3"
    } else if d == 4 {
        "4"
    } else if d == 5 {
        "5"
    } else if d == 6 {
        "6"
    } else if d == 7 {
        "7"
    } else if d == 8 {
        "8"
    } else {
        "9"
    };
    assert(r@ =~= seq![digit_char(d as nat)]);
    r
}

/// Appends the decimal text of `v` to `out`.
pub fn push_decimal(out: &mut String, v: u64)
    ensures
        final(out)@ == old(out)@ + decimal_text(v as nat),
    decreases v,
{
    if v >= 10 {
        push_decimal(out, v / 10);
    }
    out.append(digit_str(v % 10));
    proof {
        if v >= 10 {
            assert(old(out)@ + decimal_text(v as nat) =~= old(out)@ + decimal_text((v / 10) as nat)
                + seq![digit_char((v % 10) as nat)]);
        }
    }
}

/// Shows a title and a year as `TITLE (YYYY)`.
pub fn display_title_and_year(title: &str, year: u16) -> (r: String)
    ensures
        r@ == title@ + " ("@ + decimal_text(year as nat) + ")"@,
{
    let mut out = String::from_str(title);
    out.append(" (");
    push_decimal(&mut out, year as u64);
    out.append(")");
    out
}

/// Texts joined by `sep`.
pub open spec fn joined(parts: Seq<Seq<char>>, sep: Seq<char>) -> Seq<char>
    decreases parts.len(),
{
    if parts.len() == 0 {
        Seq::empty()
    } else if parts.len() == 1 {
        parts[0]
    } else {
        joined(parts.drop_last(), sep) + sep + parts.last()
    }
}

/// The texts of search strings.
pub open spec fn search_texts(keywords: Seq<SearchString>) -> Seq<Seq<char>> {
    keywords.map_values(|k: SearchString| k.view())
}

/// Shows keywords separated by `, `.
pub fn display_keywords(keywords: &[SearchString]) -> (r: String)
    ensures
        r@ == joined(search_texts(keywords@), ", "@),
{
    let mut out = String::new();
    let mut i: usize = 0;
    while i < keywords.len()
        invariant
            i <= keywords@.len(),
            out@ == joined(search_texts(keywords@).take(i as int), ", "@),
        decreases keywords@.len() - i,
    {
        proof {
            assert(search_texts(keywords@).take(i + 1).drop_last() =~= search_texts(keywords@).take(
                i as int,
            ));
        }
        if i > 0 {
            out.append(", ");
        }
        out.append(keywords[i].as_str());
        proof {
            if i == 0 {
                assert(out@ =~= search_texts(keywords@).take(1)[0]);
            }
        }
        i += 1;
    }
    proof {
        assert(search_texts(keywords@).take(i as int) =~= search_texts(keywords@));
    }
    out
}

/// The words of a text: its longest runs of characters other than white space, in order.
pub open spec fn words_of(s: Seq<char>) -> Seq<Seq<char>>
    decreases s.len(),
{
    if s.len() == 0 {
        Seq::empty()
    } else if is_white_space(s.last()) {
        words_of(s.drop_last())
    } else if s.len() >= 2 && !is_white_space(s[s.len() - 2]) {
        let w = words_of(s.drop_last());
        w.drop_last().push(w.last().push(s.last()))
    } else {
        words_of(s.drop_last()).push(seq![s.last()])
    }
}

/// The texts without repetitions, each where it first comes.
pub open spec fn first_occurrences(ws: Seq<Seq<char>>) -> Seq<Seq<char>>
    decreases ws.len(),
{
    if ws.len() == 0 {
        Seq::empty()
    } else {
        let d = first_occurrences(ws.drop_last());
        if d.contains(ws.last()) {
            d
        } else {
            d.push(ws.last())
        }
    }
}

/// The texts longer than one byte.
pub open spec fn longer_than_one_byte(ws: Seq<Seq<char>>) -> Seq<Seq<char>>
    decreases ws.len(),
{
    if ws.len() == 0 {
        ws
    } else {
        let sub = longer_than_one_byte(ws.drop_last());
        if vstd::utf8::encode_utf8(ws.last()).len() > 1 {
            sub.push(ws.last())
        } else {
            sub
        }
    }
}

/// Every word has at least one character.
proof fn lemma_words_not_empty(s: Seq<char>)
    ensures
        forall|j: int| 0 <= j < words_of(s).len() ==> #[trigger] words_of(s)[j].len() > 0,
    decreases s.len(),
{
    if s.len() > 0 {
        lemma_words_not_empty(s.drop_last());
        if !is_white_space(s.last()) && s.len() >= 2 && !is_white_space(s[s.len() - 2]) {
            let w = words_of(s.drop_last());
            assert forall|j: int| 0 <= j < words_of(s).len() implies #[trigger] words_of(s)[j].len()
                > 0 by {
                if j < w.len() - 1 {
                    assert(words_of(s)[j] == w[j]);
                }
            }
        }
    }
}

/// The texts kept where they first come are among the texts.
proof fn lemma_first_occurrences_among(ws: Seq<Seq<char>>)
    ensures
        forall|j: int|
            0 <= j < first_occurrences(ws).len() ==> ws.contains(#[trigger] first_occurrences(ws)[j]),
    decreases ws.len(),
{
    if ws.len() > 0 {
        let init = ws.drop_last();
        lemma_first_occurrences_among(init);
        assert forall|j: int| 0 <= j < first_occurrences(ws).len() implies ws.contains(
            #[trigger] first_occurrences(ws)[j],
        ) by {
            let d = first_occurrences(init);
            if j < d.len() {
                assert(first_occurrences(ws)[j] == d[j]);
                assert(init.contains(d[j]));
                let k = choose|k: int| 0 <= k < init.len() && init[k] == d[j];
                assert(ws[k] == init[k]);
            } else {
                assert(first_occurrences(ws)[j] == ws.last());
                assert(ws[ws.len() - 1] == ws.last());
            }
        }
    }
}

/// The keywords of a search text, before they are made lowercase: its different words, each
/// where it first comes, and, when there is more than one, only those longer than one byte.
pub open spec fn keyword_texts(s: Seq<char>) -> Seq<Seq<char>> {
    let d = first_occurrences(words_of(s));
    if d.len() > 1 {
        longer_than_one_byte(d)
    } else {
        d
    }
}

/// Errors when making keywords.
#[derive(Debug, Clone, Copy, PartialEq, Eq, Structural)]
pub enum KeywordSetErr {
    /// The search text has no words.
    EmptyKeywords,
}

/// Returns the words of a text.
pub fn words(text: &str) -> (r: Vec<String>)
    ensures
        r@.map_values(|w: String| w@) == words_of(text@),
{
    let n = text.unicode_len();
    let mut out: Vec<String> = Vec::new();
    let mut i: usize = 0;
    let ghost s = text@;
    while i < n
        invariant
            s == text@,
            n == s.len(),
            i <= n,
            out@.map_values(|w: String| w@) == words_of(s.take(i as int)),
        decreases n - i,
    {
        let c = text.get_char(i);
        let ghost t = s.take(i + 1);
        proof {
            assert(t.drop_last() =~= s.take(i as int));
            assert(t.last() == c);
        }
        if !is_whitespace(c) {
            let single = text.substring_char(i, i + 1);
            proof {
                assert(single@ =~= seq![c]);
            }
            if i > 0 && !is_whitespace(text.get_char(i - 1)) {
                proof {
                    assert(t[t.len() - 2] == s[i - 1]);
                    lemma_words_nonempty(s.take(i as int));
                }
                let ghost before = out@;
                let ghost ws = words_of(s.take(i as int));
                assert(before.map_values(|w: String| w@).len() == before.len());
                let mut w = out.pop().unwrap();
                proof {
                    assert(w@ == before.map_values(|w: String| w@).last());
                    assert(out@ =~= before.drop_last());
                }
                w.append(single);
                proof {
                    assert(w@ =~= ws.last().push(c));
                }
                out.push(w);
                proof {
                    assert(out@ == before.drop_last().push(w));
                    assert forall|j: int| 0 <= j < ws.len() - 1 implies #[trigger] out@[j]@
                        == ws[j] by {
                        assert(out@[j] == before[j]);
                        assert(before.map_values(|w: String| w@)[j] == before[j]@);
                    }
                    assert(out@.map_values(|w: String| w@) =~= ws.drop_last().push(ws.last().push(
                        c,
                    )));
                }
            } else {
                out.push(String::from_str(single));
                proof {
                    assert(out@.map_values(|w: String| w@) =~= words_of(s.take(i as int)).push(
                        seq![c],
                    ));
                }
            }
        }
        i += 1;
    }
    proof {
        assert(s.take(n as int) =~= s);
    }
    out
}

/// A text whose last character is not white space has at least one word.
proof fn lemma_words_nonempty(s: Seq<char>)
    requires
        s.len() > 0,
        !is_white_space(s.last()),
    ensures
        words_of(s).len() > 0,
    decreases s.len(),
{
    if s.len() >= 2 && !is_white_space(s[s.len() - 2]) {
        assert(s.drop_last().last() == s[s.len() - 2]);
        lemma_words_nonempty(s.drop_last());
    }
}

/// Makes the keywords of a search text: its different words, each where it first comes, and,
/// when there is more than one, only those longer than one byte; each made lowercase. A text
/// without words is an error.
pub fn create_keywords_set(title: &str) -> (r: Result<Vec<SearchString>, KeywordSetErr>)
    ensures
        first_occurrences(words_of(title@)).len() == 0 <==> r == Err::<
            Vec<SearchString>,
            KeywordSetErr,
        >(KeywordSetErr::EmptyKeywords),
        r matches Ok(ks) ==> ks@.len() == keyword_texts(title@).len() && forall|i: int|
            0 <= i < ks@.len() ==> #[trigger] ks@[i].view() == lowercase_of(
                keyword_texts(title@)[i],
            ),
{
    let ws = words(title);
    let ghost wv = ws@.map_values(|w: String| w@);
    // The different words, each where it first comes.
    let mut distinct: Vec<&str> = Vec::new();
    let mut i: usize = 0;
    while i < ws.len()
        invariant
            wv == ws@.map_values(|w: String| w@),
            i <= ws@.len(),
            distinct@.map_values(|w: &str| w@) == first_occurrences(wv.take(i as int)),
        decreases ws@.len() - i,
    {
        let w = ws[i].as_str();
        let ghost dv = distinct@.map_values(|w: &str| w@);
        let mut seen = false;
        let mut j: usize = 0;
        while j < distinct.len()
            invariant
                dv == distinct@.map_values(|w: &str| w@),
                j <= distinct@.len(),
                seen <==> exists|k: int| 0 <= k < j && dv[k] == w@,
            decreases distinct@.len() - j,
        {
            proof {
                assert(dv[j as int] == distinct@[j as int]@);
            }
            if crate::text::str_eq(distinct[j], w) {
                seen = true;
            }
            j += 1;
        }
        proof {
            assert(wv.take(i + 1).drop_last() =~= wv.take(i as int));
            assert(wv.take(i + 1).last() == w@);
            if dv.contains(w@) {
                let k = choose|k: int| 0 <= k < dv.len() && dv[k] == w@;
                assert(seen);
            }
        }
        if !seen {
            distinct.push(w);
            proof {
                assert(distinct@.map_values(|w: &str| w@) =~= dv.push(w@));
            }
        }
        i += 1;
    }
    proof {
        assert(wv.take(ws@.len() as int) =~= wv);
    }
    let ghost dv = distinct@.map_values(|w: &str| w@);
    proof {
        lemma_words_not_empty(title@);
        lemma_first_occurrences_among(words_of(title@));
        assert forall|j: int| 0 <= j < dv.len() implies #[trigger] dv[j].len() > 0 by {
            assert(words_of(title@).contains(dv[j]));
        }
    }
    if distinct.len() == 0 {
        return Err(KeywordSetErr::EmptyKeywords);
    }
    let many = distinct.len() > 1;
    let mut out: Vec<SearchString> = Vec::new();
    let mut k: usize = 0;
    let ghost mut kept: Seq<Seq<char>> = Seq::empty();
    while k < distinct.len()
        invariant
            dv == distinct@.map_values(|w: &str| w@),
            dv == first_occurrences(words_of(title@)),
            many == (dv.len() > 1),
            k <= dv.len(),
            kept == (if many {
                longer_than_one_byte(dv.take(k as int))
            } else {
                dv.take(k as int)
            }),
            forall|j: int| 0 <= j < dv.len() ==> #[trigger] dv[j].len() > 0,
            out@.len() == kept.len(),
            forall|j: int| 0 <= j < out@.len() ==> #[trigger] out@[j].view() == lowercase_of(kept[j]),
        decreases dv.len() - k,
    {
        let w = distinct[k];
        proof {
            assert(dv[k as int] == w@);
            assert(dv.take(k + 1).drop_last() =~= dv.take(k as int));
            assert(dv.take(k + 1).last() == w@);
        }
        if !many || w.as_bytes().len() > 1 {
            match SearchString::try_from(w) {
                Ok(s) => {
                    out.push(s);
                },
                Err(e) => {
                    proof {
                        assert(w@.len() > 0);
                        match e {
                            SearchStringErr::IsEmpty => {},
                        }
                    }
                },
            }
            proof {
                kept = kept.push(w@);
                assert(kept == (if many {
                    longer_than_one_byte(dv.take(k + 1))
                } else {
                    dv.take(k + 1)
                }));
            }
        } else {
            proof {
                assert(kept == longer_than_one_byte(dv.take(k + 1)));
            }
        }
        k += 1;
    }
    proof {
        assert(dv.take(dv.len() as int) =~= dv);
    }
    Ok(out)
}

/// The general options of the command line tool.
#[derive(Debug, Clone, Copy, PartialEq, Eq, Structural)]
pub struct GeneralOpts {
    /// Update the databases whatever their age.
    pub force_update: bool,
    /// Show colors.
    pub color: bool,
    /// How verbose the output is.
    pub verbose: u8,
}

/// Whether the `NO_COLOR` environment variable, with the given value if it is set, asks for
/// no colors: it is set to anything but `0`.
pub fn no_color_requested(value: Option<&str>) -> (r: bool)
    ensures
        r == (value matches Some(v) && v@ != "0"@),
{
    match value {
        Some(v) => !crate::text::str_eq(v, "0"),
        None => false,
    }
}

/// Merges the options given after a command with those given before it: updating is forced
/// and colors shown if either asks for it (colors also when `NO_COLOR` does not ask for none),
/// and the verbosity given after the command counts when it is not zero.
pub fn merge_general_opts(locals: GeneralOpts, globals: GeneralOpts, no_color: bool) -> (r:
    GeneralOpts)
    ensures
        r.force_update == (locals.force_update || globals.force_update),
        r.color == (!no_color || locals.color || globals.color),
        r.verbose == if locals.verbose > 0 {
            locals.verbose
        } else {
            globals.verbose
        },
{
    GeneralOpts {
        force_update: locals.force_update || globals.force_update,
        color: !no_color || locals.color || globals.color,
        verbose: if locals.verbose > 0 {
            locals.verbose
        } else {
            globals.verbose
        },
    }
}

/// The levels of log output.
#[derive(Debug, Clone, Copy, PartialEq, Eq, Structural)]
pub enum LogLevel {
    Off,
    Error,
    Warn,
    Info,
    Debug,
    Trace,
}

/// The log level for a verbosity: none at 0, then errors, warnings, information, debugging
/// output, and everything from 5 on.
pub fn get_log_level(verbose: u8) -> (r: LogLevel)
    ensures
        r == (if verbose == 0 {
            LogLevel::Off
        } else if verbose == 1 {
            LogLevel::Error
        } else if verbose == 2 {
            LogLevel::Warn
        } else if verbose == 3 {
            LogLevel::Info
        } else if verbose == 4 {
            LogLevel::Debug
        } else {
            LogLevel::Trace
        }),
{
    match verbose {
        0 => LogLevel::Off,
        1 => LogLevel::Error,
        2 => LogLevel::Warn,
        3 => LogLevel::Info,
        4 => LogLevel::Debug,
        _ => LogLevel::Trace,
    }
}

} // verus!
