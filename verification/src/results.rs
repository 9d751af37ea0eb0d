//! Search results: the titles found, ranked by rating or by year, and the top ones of them.

use vstd::prelude::*;
use vstd::utf8::*;

use crate::title::Title;

verus! {

broadcast use vstd::seq_lib::group_to_multiset_ensures;

/// Whether the bytes `a` come before the bytes `b` in lexicographic order.
pub open spec fn bytes_lt(a: Seq<u8>, b: Seq<u8>) -> bool
    decreases a.len(),
{
    if a.len() == 0 {
        b.len() > 0
    } else if b.len() == 0 {
        false
    } else if a[0] != b[0] {
        a[0] < b[0]
    } else {
        bytes_lt(a.skip(1), b.skip(1))
    }
}

/// No bytes come before themselves.
proof fn lemma_bytes_lt_irreflexive(a: Seq<u8>)
    ensures
        !bytes_lt(a, a),
    decreases a.len(),
{
    if a.len() > 0 {
        lemma_bytes_lt_irreflexive(a.skip(1));
    }
}

/// Of two different byte sequences, one comes before the other, and not both.
proof fn lemma_bytes_lt_total(a: Seq<u8>, b: Seq<u8>)
    ensures
        bytes_lt(a, b) ==> !bytes_lt(b, a),
        a != b ==> bytes_lt(a, b) || bytes_lt(b, a),
    decreases a.len(),
{
    if a.len() > 0 && b.len() > 0 {
        lemma_bytes_lt_total(a.skip(1), b.skip(1));
        if a != b && a[0] == b[0] {
            assert(a.skip(1) != b.skip(1)) by {
                if a.skip(1) == b.skip(1) {
                    assert(a =~= seq![a[0]] + a.skip(1));
                    assert(b =~= seq![b[0]] + b.skip(1));
                }
            }
        }
    }
    if a.len() == 0 && b.len() == 0 {
        assert(a =~= b);
    }
}

/// Coming before is transitive.
proof fn lemma_bytes_lt_transitive(a: Seq<u8>, b: Seq<u8>, c: Seq<u8>)
    ensures
        bytes_lt(a, b) && bytes_lt(b, c) ==> bytes_lt(a, c),
    decreases a.len(),
{
    if a.len() > 0 && b.len() > 0 && c.len() > 0 {
        lemma_bytes_lt_transitive(a.skip(1), b.skip(1), c.skip(1));
    }
}

/// The lexicographic order of bytes is a strict total order.
pub proof fn lemma_bytes_lt_order(a: Seq<u8>, b: Seq<u8>, c: Seq<u8>)
    ensures
        !bytes_lt(a, a),
        bytes_lt(a, b) ==> !bytes_lt(b, a),
        a != b ==> bytes_lt(a, b) || bytes_lt(b, a),
        bytes_lt(a, b) && bytes_lt(b, c) ==> bytes_lt(a, c),
{
    lemma_bytes_lt_irreflexive(a);
    lemma_bytes_lt_total(a, b);
    lemma_bytes_lt_transitive(a, b, c);
}

/// The rating part of a title's rank: -1 without a rating, else ordered by the average, then
/// by the number of votes.
pub open spec fn rating_rank(t: Title) -> int {
    match t.spec_header().spec_rating_parts() {
        None => -1,
        Some((r, v)) => r as int * 0x1_0000_0000 + v as int,
    }
}

/// The year part of a title's rank: -1 without a start year, else the year.
pub open spec fn year_rank(t: Title) -> int {
    match t.spec_header().spec_start_year() {
        None => -1,
        Some(y) => y as int,
    }
}

/// Whether title `a` ranks above title `b`: by rating, then start year, then primary title
/// (by its bytes), each higher first; by start year first when `by_year`.
pub open spec fn ranks_above(a: Title, b: Title, by_year: bool) -> bool {
    let (a1, a2) = if by_year {
        (year_rank(a), rating_rank(a))
    } else {
        (rating_rank(a), year_rank(a))
    };
    let (b1, b2) = if by_year {
        (year_rank(b), rating_rank(b))
    } else {
        (rating_rank(b), year_rank(b))
    };
    a1 > b1 || (a1 == b1 && (a2 > b2 || (a2 == b2 && bytes_lt(
        encode_utf8(b.model().primary),
        encode_utf8(a.model().primary),
    ))))
}

/// Ranking is a strict weak order: not ranking above is transitive, and ranking above
/// something that ranks at least as high as a third ranks above the third.
pub proof fn lemma_rank_order(a: Title, b: Title, c: Title, by_year: bool)
    ensures
        !ranks_above(a, a, by_year),
        ranks_above(a, b, by_year) ==> !ranks_above(b, a, by_year),
        !ranks_above(a, b, by_year) && !ranks_above(b, c, by_year) ==> !ranks_above(a, c, by_year),
        ranks_above(a, b, by_year) && !ranks_above(c, b, by_year) ==> ranks_above(a, c, by_year),
{
    let pa = encode_utf8(a.model().primary);
    let pb = encode_utf8(b.model().primary);
    let pc = encode_utf8(c.model().primary);
    lemma_bytes_lt_order(pa, pb, pc);
    lemma_bytes_lt_order(pc, pb, pa);
    lemma_bytes_lt_order(pb, pa, pc);
    lemma_bytes_lt_order(pc, pa, pb);
    lemma_bytes_lt_order(pa, pc, pb);
    lemma_bytes_lt_order(pb, pc, pa);
}

/// What ranking by rating means, in the values that the titles hold: a rated title ranks
/// above an unrated one; of two rated titles the higher average, then the more votes, ranks
/// higher; with equal ratings (or none) the later start year ranks higher, a title with a start
/// year above one without; and with those equal too, the primary title that comes later in
/// byte order ranks higher.
pub proof fn lemma_rank_by_rating(a: Title, b: Title)
    ensures
        a.spec_header().spec_rating_parts() is Some && b.spec_header().spec_rating_parts() is None
            ==> ranks_above(a, b, false),
        a.spec_header().spec_rating_parts() matches Some((ra, va)) ==> (b.spec_header().spec_rating_parts()
            matches Some((rb, vb)) ==> (ra > rb || (ra == rb && va > vb) ==> ranks_above(a, b, false))),
        a.spec_header().spec_rating_parts() == b.spec_header().spec_rating_parts() && a.spec_header().spec_start_year()
            is Some && b.spec_header().spec_start_year() is None ==> ranks_above(a, b, false),
        a.spec_header().spec_rating_parts() == b.spec_header().spec_rating_parts() ==> (
        a.spec_header().spec_start_year() matches Some(ya) ==> (b.spec_header().spec_start_year()
            matches Some(yb) ==> (ya > yb ==> ranks_above(a, b, false)))),
        a.spec_header().spec_rating_parts() == b.spec_header().spec_rating_parts() && a.spec_header().spec_start_year()
            == b.spec_header().spec_start_year() ==> (ranks_above(a, b, false) <==> bytes_lt(
            encode_utf8(b.model().primary),
            encode_utf8(a.model().primary),
        )),
{
}

/// What ranking by year means, in the values that the titles hold: the later start year ranks
/// higher, a title with a start year above one without; with equal years (or none) a rated
/// title ranks above an unrated one, and of two rated titles the higher average, then the more
/// votes, ranks higher; and with those equal too, the primary title that comes later in byte
/// order ranks higher.
pub proof fn lemma_rank_by_year(a: Title, b: Title)
    ensures
        a.spec_header().spec_start_year() is Some && b.spec_header().spec_start_year() is None
            ==> ranks_above(a, b, true),
        a.spec_header().spec_start_year() matches Some(ya) ==> (b.spec_header().spec_start_year()
            matches Some(yb) ==> (ya > yb ==> ranks_above(a, b, true))),
        a.spec_header().spec_start_year() == b.spec_header().spec_start_year() && a.spec_header().spec_rating_parts()
            is Some && b.spec_header().spec_rating_parts() is None ==> ranks_above(a, b, true),
        a.spec_header().spec_start_year() == b.spec_header().spec_start_year() ==> (
        a.spec_header().spec_rating_parts() matches Some((ra, va)) ==> (b.spec_header().spec_rating_parts()
            matches Some((rb, vb)) ==> (ra > rb || (ra == rb && va > vb) ==> ranks_above(a, b, true)))),
        a.spec_header().spec_rating_parts() == b.spec_header().spec_rating_parts() && a.spec_header().spec_start_year()
            == b.spec_header().spec_start_year() ==> (ranks_above(a, b, true) <==> bytes_lt(
            encode_utf8(b.model().primary),
            encode_utf8(a.model().primary),
        )),
{
}

/// Whether the titles are ranked: none ranks above one before it.
pub open spec fn is_ranked(ts: Seq<&Title>, by_year: bool) -> bool {
    forall|i: int, j: int| 0 <= i < j < ts.len() ==> !ranks_above(*ts[j], *ts[i], by_year)
}

/// Returns whether the bytes `a` come before the bytes `b` in lexicographic order.
pub fn bytes_less(a: &[u8], b: &[u8]) -> (r: bool)
    ensures
        r == bytes_lt(a@, b@),
{
    let mut i: usize = 0;
    proof {
        assert(a@.skip(0) =~= a@);
        assert(b@.skip(0) =~= b@);
    }
    while i < a.len() && i < b.len() && a[i] == b[i]
        invariant
            i <= a@.len(),
            i <= b@.len(),
            bytes_lt(a@.skip(i as int), b@.skip(i as int)) == bytes_lt(a@, b@),
        decreases a@.len() - i,
    {
        proof {
            assert(a@.skip(i as int).skip(1) =~= a@.skip(i + 1));
            assert(b@.skip(i as int).skip(1) =~= b@.skip(i + 1));
        }
        i += 1;
    }
    if i == a.len() {
        i < b.len()
    } else if i == b.len() {
        false
    } else {
        a[i] < b[i]
    }
}

/// Returns the rating part of a title's rank, as `rating_rank` gives it, plus one.
fn rating_rank_of(t: &Title) -> (r: u64)
    ensures
        r as int == rating_rank(*t) + 1,
{
    match t.rating() {
        None => 0,
        Some(rt) => rt.rating() as u64 * 0x1_0000_0000 + rt.votes() as u64 + 1,
    }
}

/// Returns the year part of a title's rank, as `year_rank` gives it, plus one.
fn year_rank_of(t: &Title) -> (r: u64)
    ensures
        r as int == year_rank(*t) + 1,
{
    match t.start_year() {
        None => 0,
        Some(y) => y as u64 + 1,
    }
}

/// Returns whether title `a` ranks above title `b`.
pub fn rank_above(a: &Title, b: &Title, by_year: bool) -> (r: bool)
    ensures
        r == ranks_above(*a, *b, by_year),
{
    let (a1, a2) = if by_year {
        (year_rank_of(a), rating_rank_of(a))
    } else {
        (rating_rank_of(a), year_rank_of(a))
    };
    let (b1, b2) = if by_year {
        (year_rank_of(b), rating_rank_of(b))
    } else {
        (rating_rank_of(b), year_rank_of(b))
    };
    if a1 != b1 {
        a1 > b1
    } else if a2 != b2 {
        a2 > b2
    } else {
        let pa = a.primary_title().as_bytes();
        let pb = b.primary_title().as_bytes();
        bytes_less(pb, pa)
    }
}

/// Merges two ranked lists of titles into one.
fn merge<'a>(left: Vec<&'a Title>, right: Vec<&'a Title>, by_year: bool) -> (r: Vec<&'a Title>)
    requires
        is_ranked(left@, by_year),
        is_ranked(right@, by_year),
    ensures
        is_ranked(r@, by_year),
        r@.to_multiset() == left@.to_multiset().add(right@.to_multiset()),
{
    let mut out: Vec<&'a Title> = Vec::new();
    let mut i: usize = 0;
    let mut j: usize = 0;
    while i < left.len() || j < right.len()
        invariant
            i <= left@.len(),
            j <= right@.len(),
            is_ranked(left@, by_year),
            is_ranked(right@, by_year),
            is_ranked(out@, by_year),
            out@.to_multiset() == left@.take(i as int).to_multiset().add(
                right@.take(j as int).to_multiset(),
            ),
            out@.len() > 0 && i < left@.len() ==> !ranks_above(*left@[i as int], *out@.last(), by_year),
            out@.len() > 0 && j < right@.len() ==> !ranks_above(
                *right@[j as int],
                *out@.last(),
                by_year,
            ),
        decreases left@.len() + right@.len() - i - j,
    {
        let take_left = if i == left.len() {
            false
        } else if j == right.len() {
            true
        } else {
            !rank_above(right[j], left[i], by_year)
        };
        let ghost before = out@;
        let x = if take_left {
            left[i]
        } else {
            right[j]
        };
        out.push(x);
        proof {
            assert(out@ == before.push(x));
            assert forall|p: int, q: int| 0 <= p < q < out@.len() implies !ranks_above(
                *out@[q],
                *out@[p],
                by_year,
            ) by {
                if q == before.len() {
                    if p < before.len() - 1 {
                        lemma_rank_order(*x, *before.last(), *before[p], by_year);
                    }
                }
            }
            if take_left {
                assert(left@.take(i + 1) =~= left@.take(i as int).push(x));
            } else {
                assert(right@.take(j + 1) =~= right@.take(j as int).push(x));
            }
        }
        if take_left {
            i += 1;
            proof {
                if i < left@.len() {
                    assert(!ranks_above(*left@[i as int], *left@[i - 1], by_year));
                }
                if j < right@.len() {
                    lemma_rank_order(*right@[j as int], *x, *x, by_year);
                }
            }
        } else {
            j += 1;
            proof {
                if j < right@.len() {
                    assert(!ranks_above(*right@[j as int], *right@[j - 1], by_year));
                }
                if i < left@.len() {
                    lemma_rank_order(*left@[i as int], *x, *left@[i as int], by_year);
                    lemma_rank_order(*x, *left@[i as int], *left@[i as int], by_year);
                }
            }
        }
    }
    proof {
        assert(left@.take(i as int) =~= left@);
        assert(right@.take(j as int) =~= right@);
    }
    out
}

/// Ranks titles: the result holds the same titles, none ranking above one before it.
pub fn rank<'a>(titles: Vec<&'a Title>, by_year: bool) -> (r: Vec<&'a Title>)
    ensures
        is_ranked(r@, by_year),
        r@.to_multiset() == titles@.to_multiset(),
    decreases titles@.len(),
{
    let n = titles.len();
    if n <= 1 {
        return titles;
    }
    let mid = n / 2;
    let mut left: Vec<&'a Title> = Vec::new();
    let mut right: Vec<&'a Title> = Vec::new();
    let mut k: usize = 0;
    while k < n
        invariant
            n == titles@.len(),
            mid == n / 2,
            k <= n,
            k <= mid ==> left@ == titles@.take(k as int) && right@.len() == 0,
            k > mid ==> left@ == titles@.take(mid as int) && right@ == titles@.subrange(
                mid as int,
                k as int,
            ),
        decreases n - k,
    {
        if k < mid {
            left.push(titles[k]);
            proof {
                assert(left@ =~= titles@.take(k + 1));
            }
        } else {
            right.push(titles[k]);
            proof {
                assert(right@ =~= titles@.subrange(mid as int, k + 1));
            }
        }
        k += 1;
    }
    proof {
        assert(titles@ =~= left@ + right@);
        vstd::seq_lib::lemma_multiset_commutative(left@, right@);
    }
    let left = rank(left, by_year);
    let right = rank(right, by_year);
    merge(left, right, by_year)
}

/// The titles found by a search, ranked by rating (or by year) when they are shown, of which
/// only the top ones are shown when a number is given.
pub struct SearchRes<'a> {
    results: Vec<&'a Title>,
    sort_by_year: bool,
    top: Option<usize>,
}

impl<'a> SearchRes<'a> {
    /// The titles found, in the order they came.
    pub closed spec fn spec_results(&self) -> Seq<&'a Title> {
        self.results@
    }

    /// Whether the titles are ranked by year first.
    pub closed spec fn spec_sort_by_year(&self) -> bool {
        self.sort_by_year
    }

    /// How many titles are shown at most, if limited.
    pub closed spec fn spec_top(&self) -> Option<usize> {
        self.top
    }

    /// The number of titles shown.
    pub open spec fn spec_shown(&self) -> nat {
        match self.spec_top() {
            Some(n) => if (n as nat) < self.spec_results().len() {
                n as nat
            } else {
                self.spec_results().len()
            },
            None => self.spec_results().len(),
        }
    }

    /// Makes empty search results.
    pub fn new(sort_by_year: bool, top: Option<usize>) -> (r: SearchRes<'a>)
        ensures
            r.spec_results() == Seq::<&'a Title>::empty(),
            r.spec_sort_by_year() == sort_by_year,
            r.spec_top() == top,
    {
        SearchRes { results: Vec::new(), sort_by_year, top }
    }

    /// Whether the titles are ranked by year first.
    pub fn sort_by_year(&self) -> (r: bool)
        ensures
            r == self.spec_sort_by_year(),
    {
        self.sort_by_year
    }

    /// Adds a title.
    pub fn push(&mut self, title: &'a Title)
        ensures
            final(self).spec_results() == old(self).spec_results().push(title),
            final(self).spec_sort_by_year() == old(self).spec_sort_by_year(),
            final(self).spec_top() == old(self).spec_top(),
    {
        self.results.push(title);
    }

    /// Adds titles, in their order.
    pub fn extend(&mut self, titles: Vec<&'a Title>)
        ensures
            final(self).spec_results() == old(self).spec_results() + titles@,
            final(self).spec_sort_by_year() == old(self).spec_sort_by_year(),
            final(self).spec_top() == old(self).spec_top(),
    {
        let mut titles = titles;
        self.results.append(&mut titles);
    }

    /// Whether no title was found.
    pub fn is_empty(&self) -> (r: bool)
        ensures
            r == (self.spec_results().len() == 0),
    {
        self.results.len() == 0
    }

    /// The number of titles found.
    pub fn total_len(&self) -> (r: usize)
        ensures
            r == self.spec_results().len(),
    {
        self.results.len()
    }

    /// The number of titles shown: all, or the top number when fewer.
    pub fn len(&self) -> (r: usize)
        ensures
            r == self.spec_shown(),
    {
        match self.top {
            Some(n) => if n < self.results.len() {
                n
            } else {
                self.results.len()
            },
            None => self.results.len(),
        }
    }

    /// Whether fewer titles are shown than were found.
    pub fn is_truncated(&self) -> (r: bool)
        ensures
            r == (self.spec_shown() < self.spec_results().len()),
    {
        self.len() < self.results.len()
    }

    /// Ranks the titles found and returns those shown, the highest ranked first.
    pub fn top_sorted_results(&mut self) -> (r: &[&'a Title])
        ensures
            is_ranked(final(self).spec_results(), old(self).spec_sort_by_year()),
            final(self).spec_results().to_multiset() == old(self).spec_results().to_multiset(),
            final(self).spec_sort_by_year() == old(self).spec_sort_by_year(),
            final(self).spec_top() == old(self).spec_top(),
            r@ == final(self).spec_results().take(final(self).spec_shown() as int),
    {
        let mut results: Vec<&'a Title> = Vec::new();
        std::mem::swap(&mut results, &mut self.results);
        self.results = rank(results, self.sort_by_year);
        let n = self.len();
        vstd::slice::slice_subrange(self.results.as_slice(), 0, n)
    }
}

} // verus!
