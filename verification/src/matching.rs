//! Leftmost-first search for literal byte patterns.
//!
//! The meaning of a search is given by [`next_match`]. Two engines answer it:
//! an Aho-Corasick automaton and a plain position-by-position scan. A
//! [`Matcher`] holds the patterns and uses the automaton where one could be
//! built.

use aho_corasick::AhoCorasick;
use aho_corasick::Input;
use aho_corasick::MatchKind;
use vstd::prelude::*;

verus! {

/// One occurrence of a pattern: the bytes `start..end` of the haystack are
/// the pattern with index `pattern`.
#[derive(Clone, Copy, Debug, PartialEq, Eq)]
pub struct Match {
    pub start: usize,
    pub end: usize,
    pub pattern: usize,
}

/// `pat` stands in `hay` at offset `at`.
pub open spec fn matches_at(hay: Seq<u8>, pat: Seq<u8>, at: int) -> bool {
    0 <= at && at + pat.len() <= hay.len() && hay.subrange(at, at + pat.len()) == pat
}

/// The first pattern, in table order and not before index `k`, that stands at `at`.
pub open spec fn first_pattern_at(pats: Seq<Seq<u8>>, hay: Seq<u8>, at: int, k: int) -> Option<int>
    decreases pats.len() - k,
{
    if k < 0 || k >= pats.len() {
        None
    } else if matches_at(hay, pats[k], at) {
        Some(k)
    } else {
        first_pattern_at(pats, hay, at, k + 1)
    }
}

/// The leftmost-first match at or after `from`, as `(start, end, pattern)`:
/// the smallest offset at which any pattern stands, and there the pattern
/// that comes first in the table.
pub open spec fn next_match(pats: Seq<Seq<u8>>, hay: Seq<u8>, from: int) -> Option<(int, int, int)>
    decreases hay.len() + 1 - from,
{
    if from < 0 || from > hay.len() {
        None
    } else {
        match first_pattern_at(pats, hay, from, 0) {
            Some(k) => Some((from, from + pats[k].len(), k)),
            None => next_match(pats, hay, from + 1),
        }
    }
}

/// The offset of the first occurrence of `needle` at or after `from`.
pub open spec fn first_occurrence(hay: Seq<u8>, needle: Seq<u8>, from: int) -> Option<int> {
    match next_match(seq![needle], hay, from) {
        Some(m) => Some(m.0),
        None => None,
    }
}

/// What an executable search reported, in the terms of [`next_match`].
pub open spec fn reported(m: Option<Match>) -> Option<(int, int, int)> {
    match m {
        Some(m) => Some((m.start as int, m.end as int, m.pattern as int)),
        None => None,
    }
}

/// The byte sequences that a vector of patterns holds.
pub open spec fn pattern_seqs(pats: Seq<Vec<u8>>) -> Seq<Seq<u8>> {
    Seq::new(pats.len(), |i: int| pats[i]@)
}

/// No pattern of the table is empty.
pub open spec fn all_nonempty(pats: Seq<Seq<u8>>) -> bool {
    forall|i: int| 0 <= i < pats.len() ==> (#[trigger] pats[i]).len() > 0
}

/// What [`first_pattern_at`] returns is the least index from `k` on whose pattern stands at `at`.
pub proof fn lemma_first_pattern_at(pats: Seq<Seq<u8>>, hay: Seq<u8>, at: int, k: int)
    requires
        0 <= k,
    ensures
        match first_pattern_at(pats, hay, at, k) {
            Some(j) => k <= j < pats.len() && matches_at(hay, pats[j], at) && forall|i: int|
                k <= i < j ==> !matches_at(hay, #[trigger] pats[i], at),
            None => forall|i: int| k <= i < pats.len() ==> !matches_at(hay, #[trigger] pats[i], at),
        },
    decreases pats.len() - k,
{
    if k < pats.len() && !matches_at(hay, pats[k], at) {
        lemma_first_pattern_at(pats, hay, at, k + 1);
    }
}

/// What [`next_match`] returns lies inside the haystack at or after `from`,
/// is an occurrence of its pattern, and no pattern stands at an earlier offset.
pub proof fn lemma_next_match(pats: Seq<Seq<u8>>, hay: Seq<u8>, from: int)
    requires
        0 <= from,
    ensures
        match next_match(pats, hay, from) {
            Some(m) => from <= m.0 <= m.1 <= hay.len() && 0 <= m.2 < pats.len() && m.1 == m.0
                + pats[m.2].len() && first_pattern_at(pats, hay, m.0, 0) == Some(m.2)
                && forall|p: int|
                from <= p < m.0 ==> (#[trigger] first_pattern_at(pats, hay, p, 0)) is None,
            None => forall|p: int|
                from <= p <= hay.len() ==> (#[trigger] first_pattern_at(pats, hay, p, 0)) is None,
        },
    decreases hay.len() + 1 - from,
{
    if from <= hay.len() {
        lemma_first_pattern_at(pats, hay, from, 0);
        if first_pattern_at(pats, hay, from, 0) is None {
            lemma_next_match(pats, hay, from + 1);
        }
    }
}

/// The patterns come in order of non-increasing length.
pub open spec fn longest_first(pats: Seq<Seq<u8>>) -> bool {
    forall|i: int, j: int| 0 <= i <= j < pats.len() ==> pats[i].len() >= pats[j].len()
}

/// In a table that has its longest patterns first, the match that is
/// reported is a longest pattern that stands at its offset, and among those
/// of its length the first of the table.
pub proof fn law_longest_wins(pats: Seq<Seq<u8>>, hay: Seq<u8>, from: int, other: int)
    requires
        longest_first(pats),
        0 <= from,
        0 <= other < pats.len(),
        next_match(pats, hay, from) is Some,
        matches_at(hay, pats[other], next_match(pats, hay, from).unwrap().0),
    ensures
        pats[other].len() <= pats[next_match(pats, hay, from).unwrap().2].len(),
        pats[other].len() == pats[next_match(pats, hay, from).unwrap().2].len() ==> next_match(
            pats,
            hay,
            from,
        ).unwrap().2 <= other,
{
    lemma_next_match(pats, hay, from);
    let m = next_match(pats, hay, from).unwrap();
    lemma_first_pattern_at(pats, hay, m.0, 0);
}

/// Matches that follow one another do not overlap: a search that starts
/// where a match ended reports nothing that starts before that end.
pub proof fn law_matches_in_order(pats: Seq<Seq<u8>>, hay: Seq<u8>, from: int)
    requires
        0 <= from,
        next_match(pats, hay, from) is Some,
        next_match(pats, hay, next_match(pats, hay, from).unwrap().1) is Some,
    ensures
        next_match(pats, hay, from).unwrap().0 <= next_match(pats, hay, from).unwrap().1
            <= next_match(pats, hay, next_match(pats, hay, from).unwrap().1).unwrap().0,
{
    lemma_next_match(pats, hay, from);
    lemma_next_match(pats, hay, next_match(pats, hay, from).unwrap().1);
}

/// A search in the tail of a haystack is the search in the whole haystack, moved.
pub proof fn lemma_first_pattern_at_tail(
    pats: Seq<Seq<u8>>,
    hay: Seq<u8>,
    cut: int,
    at: int,
    k: int,
)
    requires
        0 <= cut <= hay.len(),
        0 <= at,
        0 <= k,
    ensures
        first_pattern_at(pats, hay.subrange(cut, hay.len() as int), at, k) == first_pattern_at(
            pats,
            hay,
            cut + at,
            k,
        ),
    decreases pats.len() - k,
{
    let tail = hay.subrange(cut, hay.len() as int);
    if k < pats.len() {
        let n = pats[k].len() as int;
        if at + n <= tail.len() {
            assert(tail.subrange(at, at + n) =~= hay.subrange(cut + at, cut + at + n));
        }
        lemma_first_pattern_at_tail(pats, hay, cut, at, k + 1);
    }
}

/// See [`lemma_first_pattern_at_tail`]: the same for a whole search.
pub proof fn lemma_next_match_tail(pats: Seq<Seq<u8>>, hay: Seq<u8>, cut: int, from: int)
    requires
        0 <= cut <= hay.len(),
        0 <= from,
    ensures
        match next_match(pats, hay.subrange(cut, hay.len() as int), from) {
            Some(m) => next_match(pats, hay, cut + from) == Some((cut + m.0, cut + m.1, m.2)),
            None => next_match(pats, hay, cut + from) is None,
        },
    decreases hay.len() + 1 - cut - from,
{
    let tail = hay.subrange(cut, hay.len() as int);
    if from <= tail.len() {
        lemma_first_pattern_at_tail(pats, hay, cut, from, 0);
        if first_pattern_at(pats, tail, from, 0) is None {
            lemma_next_match_tail(pats, hay, cut, from + 1);
        }
    }
}

/// Whether `pat` stands in `hay` at `at`, by comparing byte for byte.
pub fn pattern_at(hay: &[u8], pat: &[u8], at: usize) -> (b: bool)
    ensures
        b == matches_at(hay@, pat@, at as int),
{
    if at > hay.len() || pat.len() > hay.len() - at {
        return false;
    }
    let mut i: usize = 0;
    while i < pat.len()
        invariant
            at + pat.len() <= hay.len(),
            i <= pat.len(),
            forall|j: int| 0 <= j < i ==> hay@[at + j] == pat@[j],
        decreases pat.len() - i,
    {
        if hay[at + i] != pat[i] {
            proof {
                let sub = hay@.subrange(at as int, at + pat@.len());
                assert(sub[i as int] == hay@[at + i]);
            }
            return false;
        }
        i += 1;
    }
    proof {
        assert(hay@.subrange(at as int, at + pat@.len()) =~= pat@);
    }
    true
}

/// The leftmost-first match at or after `from`, found by trying every offset
/// and, at each, every pattern in table order.
pub fn scan_find(pats: &Vec<Vec<u8>>, hay: &[u8], from: usize) -> (r: Option<Match>)
    ensures
        reported(r) == next_match(pattern_seqs(pats@), hay@, from as int),
{
    let ghost table = pattern_seqs(pats@);
    if from > hay.len() {
        return None;
    }
    let mut at: usize = from;
    loop
        invariant
            table == pattern_seqs(pats@),
            from <= at <= hay.len(),
            next_match(table, hay@, from as int) == next_match(table, hay@, at as int),
        decreases hay.len() - at,
    {
        let mut k: usize = 0;
        while k < pats.len()
            invariant
                table == pattern_seqs(pats@),
                k <= pats.len(),
                at <= hay.len(),
                next_match(table, hay@, from as int) == next_match(table, hay@, at as int),
                first_pattern_at(table, hay@, at as int, 0) == first_pattern_at(
                    table,
                    hay@,
                    at as int,
                    k as int,
                ),
            decreases pats.len() - k,
        {
            assert(table[k as int] == pats@[k as int]@);
            if pattern_at(hay, pats[k].as_slice(), at) {
                assert(first_pattern_at(table, hay@, at as int, k as int) == Some(k as int));
                assert(next_match(table, hay@, at as int) == Some(
                    (at as int, at + table[k as int].len(), k as int),
                ));
                return Some(Match { start: at, end: at + pats[k].len(), pattern: k });
            }
            k += 1;
        }
        if at == hay.len() {
            assert(next_match(table, hay@, at + 1) is None);
            return None;
        }
        at += 1;
    }
}

#[verifier::external_type_specification]
#[verifier::external_body]
pub struct ExAhoCorasick(AhoCorasick);

/// The pattern table of an automaton that was built for leftmost-first
/// matching, in the order in which the patterns were given.
pub uninterp spec fn automaton_patterns(ac: AhoCorasick) -> Seq<Seq<u8>>;

/// Calls `AhoCorasick::builder().match_kind(MatchKind::LeftmostFirst).build(..)`.
/// Trusted: an automaton that comes back searches for exactly the patterns
/// given, in their order. Nothing is claimed about when the build succeeds.
#[verifier::external_body]
fn build_automaton(pats: &Vec<Vec<u8>>) -> (r: Option<AhoCorasick>)
    ensures
        match r {
            Some(ac) => automaton_patterns(ac) == pattern_seqs(pats@),
            None => true,
        },
{
    AhoCorasick::builder().match_kind(MatchKind::LeftmostFirst).build(pats).ok()
}

/// Calls `AhoCorasick::find` on the part `from..` of the haystack.
/// Trusted: for an automaton without empty patterns the call reports the
/// leftmost-first match, which is what [`next_match`] defines: the earliest
/// offset where a pattern stands, and the earliest such pattern of the table.
#[verifier::external_body]
fn automaton_find(ac: &AhoCorasick, hay: &[u8], from: usize) -> (r: Option<Match>)
    requires
        from <= hay@.len(),
        all_nonempty(automaton_patterns(*ac)),
    ensures
        reported(r) == next_match(automaton_patterns(*ac), hay@, from as int),
{
    let found = ac.find(Input::new(hay).span(from..hay.len()));
    found.map(|m| Match { start: m.start(), end: m.end(), pattern: m.pattern().as_usize() })
}

/// Calls `memchr::memmem::find`.
/// Trusted: the result is the offset of the first occurrence of `needle` in
/// `hay`, and `None` where there is none.
#[verifier::external_body]
fn memmem_find(hay: &[u8], needle: &[u8]) -> (r: Option<usize>)
    ensures
        match r {
            Some(i) => first_occurrence(hay@, needle@, 0) == Some(i as int),
            None => first_occurrence(hay@, needle@, 0) is None,
        },
{
    memchr::memmem::find(hay, needle)
}

/// Calls `memchr::memchr`.
/// Trusted: the result is the offset of the first byte of `hay` equal to
/// `byte`, and `None` where there is none.
#[verifier::external_body]
fn memchr_find(byte: u8, hay: &[u8]) -> (r: Option<usize>)
    ensures
        match r {
            Some(i) => first_occurrence(hay@, seq![byte], 0) == Some(i as int),
            None => first_occurrence(hay@, seq![byte], 0) is None,
        },
{
    memchr::memchr(byte, hay)
}

/// The offset of the first occurrence of `needle` in `hay` at or after `from`.
pub fn find_from(hay: &[u8], needle: &[u8], from: usize) -> (r: Option<usize>)
    requires
        from <= hay@.len(),
    ensures
        match r {
            Some(i) => first_occurrence(hay@, needle@, from as int) == Some(i as int),
            None => first_occurrence(hay@, needle@, from as int) is None,
        },
{
    let tail = vstd::slice::slice_subrange(hay, from, hay.len());
    proof {
        lemma_next_match_tail(seq![needle@], hay@, from as int, 0);
        lemma_next_match(seq![needle@], hay@, from as int);
    }
    match memmem_find(tail, needle) {
        Some(i) => Some(from + i),
        None => None,
    }
}

/// The offset of the first byte equal to `byte` in `hay` at or after `from`.
pub fn find_byte_from(hay: &[u8], byte: u8, from: usize) -> (r: Option<usize>)
    requires
        from <= hay@.len(),
    ensures
        match r {
            Some(i) => first_occurrence(hay@, seq![byte], from as int) == Some(i as int),
            None => first_occurrence(hay@, seq![byte], from as int) is None,
        },
{
    let tail = vstd::slice::slice_subrange(hay, from, hay.len());
    proof {
        lemma_next_match_tail(seq![seq![byte]], hay@, from as int, 0);
        lemma_next_match(seq![seq![byte]], hay@, from as int);
    }
    match memchr_find(byte, tail) {
        Some(i) => Some(from + i),
        None => None,
    }
}

/// The byte offset of the first occurrence of `needle` in `haystack`.
pub fn find(haystack: &str, needle: &str) -> (r: Option<usize>)
    ensures
        match r {
            Some(i) => first_occurrence(
                vstd::utf8::encode_utf8(haystack@),
                vstd::utf8::encode_utf8(needle@),
                0,
            ) == Some(i as int),
            None => first_occurrence(
                vstd::utf8::encode_utf8(haystack@),
                vstd::utf8::encode_utf8(needle@),
                0,
            ) is None,
        },
{
    find_from(haystack.as_bytes(), needle.as_bytes(), 0)
}

/// Whether `needle` occurs in `haystack`.
pub fn contains(haystack: &str, needle: &str) -> (b: bool)
    ensures
        b == first_occurrence(
            vstd::utf8::encode_utf8(haystack@),
            vstd::utf8::encode_utf8(needle@),
            0,
        ).is_some(),
{
    find(haystack, needle).is_some()
}

/// A pattern table ready for searching.
pub struct Matcher {
    pats: Vec<Vec<u8>>,
    automaton: Option<AhoCorasick>,
}

impl Matcher {
    /// The patterns, in table order.
    pub closed spec fn patterns(&self) -> Seq<Seq<u8>> {
        pattern_seqs(self.pats@)
    }

    /// An automaton, where there is one, was built from these patterns and
    /// none of them is empty.
    pub closed spec fn wf(&self) -> bool {
        match self.automaton {
            Some(ac) => automaton_patterns(ac) == pattern_seqs(self.pats@) && all_nonempty(
                pattern_seqs(self.pats@),
            ),
            None => true,
        }
    }

    /// Whether the matcher searches with an automaton.
    pub closed spec fn automated(&self) -> bool {
        self.automaton is Some
    }

    /// Whether the matcher searches with an automaton.
    pub fn is_automated(&self) -> (b: bool)
        ensures
            b == self.automated(),
    {
        self.automaton.is_some()
    }

    /// A matcher that searches with an automaton where the table has no empty
    /// pattern and the automaton can be built, and by scanning otherwise.
    pub fn new(pats: Vec<Vec<u8>>) -> (m: Matcher)
        ensures
            m.wf(),
            m.patterns() == pattern_seqs(pats@),
            m.automated() ==> all_nonempty(pattern_seqs(pats@)),
    {
        let mut k: usize = 0;
        let mut nonempty = true;
        while k < pats.len()
            invariant
                k <= pats.len(),
                nonempty == (forall|i: int| 0 <= i < k ==> (#[trigger] pats@[i])@.len() > 0),
            decreases pats.len() - k,
        {
            if pats[k].len() == 0 {
                nonempty = false;
            }
            k += 1;
        }
        if nonempty {
            assert(all_nonempty(pattern_seqs(pats@)));
            let automaton = build_automaton(&pats);
            Matcher { pats, automaton }
        } else {
            Matcher { pats, automaton: None }
        }
    }

    /// A matcher that always searches by scanning.
    pub fn scanning(pats: Vec<Vec<u8>>) -> (m: Matcher)
        ensures
            m.wf(),
            m.patterns() == pattern_seqs(pats@),
            !m.automated(),
    {
        Matcher { pats, automaton: None }
    }

    /// The leftmost-first match of the table in `hay` at or after `from`.
    pub fn find(&self, hay: &[u8], from: usize) -> (r: Option<Match>)
        requires
            self.wf(),
        ensures
            reported(r) == next_match(self.patterns(), hay@, from as int),
    {
        if from > hay.len() {
            return None;
        }
        match &self.automaton {
            Some(ac) => automaton_find(ac, hay, from),
            None => scan_find(&self.pats, hay, from),
        }
    }
}

} // verus!
