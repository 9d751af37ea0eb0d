//! Splitting lines of tab separated values and reading the numbers in them.

use vstd::prelude::*;
use vstd::utf8::*;

verus! {

/// The index of the first occurrence of `sep` in `s`, if any.
pub open spec fn first_index(s: Seq<u8>, sep: u8) -> Option<nat>
    decreases s.len(),
{
    if s.len() == 0 {
        None
    } else if s[0] == sep {
        Some(0)
    } else {
        match first_index(s.drop_first(), sep) {
            Some(i) => Some(i + 1),
            None => None,
        }
    }
}

/// The pieces of `s` between occurrences of `sep`; there is always at least one piece.
pub open spec fn split_seq(s: Seq<u8>, sep: u8) -> Seq<Seq<u8>>
    decreases s.len(),
{
    match first_index(s, sep) {
        Some(i) => if i < s.len() {
            seq![s.take(i as int)] + split_seq(s.skip((i + 1) as int), sep)
        } else {
            seq![s]
        },
        None => seq![s],
    }
}

/// The first occurrence of `sep` in `s` is at a position that holds `sep`, and nothing before
/// it is `sep`.
pub proof fn lemma_first_index(s: Seq<u8>, sep: u8)
    ensures
        first_index(s, sep) matches Some(i) ==> {
            &&& i < s.len()
            &&& s[i as int] == sep
            &&& forall|k: int| 0 <= k < i ==> s[k] != sep
        },
        first_index(s, sep) is None ==> forall|k: int| 0 <= k < s.len() ==> s[k] != sep,
    decreases s.len(),
{
    if s.len() > 0 && s[0] != sep {
        lemma_first_index(s.drop_first(), sep);
        if first_index(s, sep) is None {
            assert forall|k: int| 0 <= k < s.len() implies s[k] != sep by {
                if k > 0 {
                    assert(s[k] == s.drop_first()[k - 1]);
                }
            }
        } else {
            assert forall|k: int| 0 <= k < first_index(s, sep)->0 implies s[k] != sep by {
                if k > 0 {
                    assert(s[k] == s.drop_first()[k - 1]);
                }
            }
        }
    }
}

/// If position `j` holds `sep` and no earlier position does, the first occurrence is at `j`.
pub proof fn lemma_first_index_at(s: Seq<u8>, sep: u8, j: int)
    requires
        0 <= j < s.len(),
        s[j] == sep,
        forall|k: int| 0 <= k < j ==> s[k] != sep,
    ensures
        first_index(s, sep) == Some(j as nat),
    decreases s.len(),
{
    if j > 0 {
        lemma_first_index_at(s.drop_first(), sep, j - 1);
    }
}

/// If no position holds `sep`, there is no first occurrence.
pub proof fn lemma_first_index_none(s: Seq<u8>, sep: u8)
    requires
        forall|k: int| 0 <= k < s.len() ==> s[k] != sep,
    ensures
        first_index(s, sep) is None,
    decreases s.len(),
{
    if s.len() > 0 {
        lemma_first_index_none(s.drop_first(), sep);
    }
}

/// Splits `s` into the pieces between occurrences of `sep`.
pub fn split_bytes(s: &[u8], sep: u8) -> (r: Vec<Vec<u8>>)
    ensures
        r@.map_values(|v: Vec<u8>| v@) == split_seq(s@, sep),
{
    let mut pieces: Vec<Vec<u8>> = Vec::new();
    let mut current: Vec<u8> = Vec::new();
    let mut start: usize = 0;
    let mut j: usize = 0;
    proof {
        assert(s@.skip(0) =~= s@);
        assert(pieces@.map_values(|v: Vec<u8>| v@) + split_seq(s@, sep) =~= split_seq(s@, sep));
    }
    while j < s.len()
        invariant
            start <= j <= s@.len(),
            current@ == s@.subrange(start as int, j as int),
            forall|k: int| start <= k < j ==> s@[k] != sep,
            pieces@.map_values(|v: Vec<u8>| v@) + split_seq(s@.skip(start as int), sep) == split_seq(
                s@,
                sep,
            ),
        decreases s@.len() - j,
    {
        if s[j] == sep {
            let ghost rest = s@.skip(start as int);
            proof {
                lemma_first_index_at(rest, sep, j - start);
                assert(rest.take(j - start) =~= current@);
                assert(rest.skip(j - start + 1) =~= s@.skip(j + 1));
            }
            let ghost before = pieces@;
            let piece = current;
            pieces.push(piece);
            current = Vec::new();
            start = j + 1;
            proof {
                assert(pieces@.map_values(|v: Vec<u8>| v@) =~= before.map_values(|v: Vec<u8>| v@).push(
                    piece@,
                ));
            }
        } else {
            current.push(s[j]);
        }
        j += 1;
    }
    let ghost rest = s@.skip(start as int);
    proof {
        lemma_first_index_none(rest, sep);
        assert(rest =~= current@);
    }
    let ghost before = pieces@;
    let last = current;
    pieces.push(last);
    proof {
        assert(pieces@.map_values(|v: Vec<u8>| v@) =~= before.map_values(|v: Vec<u8>| v@).push(
            last@,
        ));
        assert(split_seq(rest, sep) == seq![rest]);
    }
    pieces
}


/// Removing an ASCII byte from the front of valid UTF-8 leaves valid UTF-8.
proof fn lemma_valid_utf8_drop_ascii(t: Seq<u8>)
    requires
        valid_utf8(t),
        t.len() > 0,
        t[0] < 0x80,
    ensures
        valid_utf8(t.subrange(1, t.len() as int)),
{
    reveal_with_fuel(is_char_boundary, 2);
    assert(is_char_boundary(t, 1));
    valid_utf8_split(t, 1);
}

/// Splitting valid UTF-8 at an ASCII separator gives pieces that are valid UTF-8.
pub proof fn lemma_split_valid_utf8(s: Seq<u8>, sep: u8)
    requires
        valid_utf8(s),
        sep < 0x80,
    ensures
        forall|k: int| 0 <= k < split_seq(s, sep).len() ==> valid_utf8(#[trigger] split_seq(s, sep)[k]),
    decreases s.len(),
{
    lemma_first_index(s, sep);
    match first_index(s, sep) {
        Some(i) => {
            let i = i as int;
            is_char_boundary_iff_not_is_continuation_byte(s, i);
            valid_utf8_split(s, i);
            let t = s.subrange(i, s.len() as int);
            lemma_valid_utf8_drop_ascii(t);
            assert(t.subrange(1, t.len() as int) =~= s.skip(i + 1));
            assert(s.subrange(0, i) =~= s.take(i));
            lemma_split_valid_utf8(s.skip(i + 1), sep);
            let rest = split_seq(s.skip(i + 1), sep);
            assert forall|k: int| 0 <= k < split_seq(s, sep).len() implies valid_utf8(
                #[trigger] split_seq(s, sep)[k],
            ) by {
                if k > 0 {
                    assert(split_seq(s, sep)[k] == rest[k - 1]);
                }
            }
        },
        None => {},
    }
}

} // verus!
