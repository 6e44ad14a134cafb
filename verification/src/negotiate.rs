//! Content negotiation over the `accept` header.
//!
//! The header is a comma-separated list of candidates. Each candidate is
//! trimmed and cut at its first `;`; what remains is its media type. The first
//! candidate whose media type is one of the three supported ones wins.
//! Quality weights are not looked at.
//!
//! Positions count characters, not bytes, so reading the character at a
//! position walks the string from its start. Headers are short enough for
//! that not to matter.
use vstd::prelude::*;

verus! {

/// A representation the responder can produce.
#[derive(Clone, Copy, Debug, PartialEq, Eq, Structural)]
pub enum MediaType {
    Json,
    Html,
    Plain,
}

impl MediaType {
    /// The media type as it is written in a header.
    pub open spec fn name(self) -> Seq<char> {
        match self {
            MediaType::Json => "application/json"@,
            MediaType::Html => "text/html"@,
            MediaType::Plain => "text/plain"@,
        }
    }

    /// The empty document in this representation.
    pub open spec fn blank(self) -> Seq<char> {
        match self {
            MediaType::Json => "{}"@,
            MediaType::Html => "<html><head></head><body></body></html>"@,
            MediaType::Plain => ""@,
        }
    }

    /// The media type as it is written in a header.
    pub fn as_str(self) -> (r: &'static str)
        ensures
            r@ == self.name(),
    {
        match self {
            MediaType::Json => "application/json",
            MediaType::Html => "text/html",
            MediaType::Plain => "text/plain",
        }
    }

    /// The empty document in this representation.
    pub fn body(self) -> (r: &'static str)
        ensures
            r@ == self.blank(),
    {
        match self {
            MediaType::Json => "{}",
            MediaType::Html => "<html><head></head><body></body></html>",
            MediaType::Plain => "",
        }
    }
}

/// The characters with the Unicode `White_Space` property.
pub open spec fn is_space(c: char) -> bool {
    ||| '\u{9}' <= c <= '\u{d}'
    ||| c == ' '
    ||| c == '\u{85}'
    ||| c == '\u{a0}'
    ||| c == '\u{1680}'
    ||| '\u{2000}' <= c <= '\u{200a}'
    ||| c == '\u{2028}'
    ||| c == '\u{2029}'
    ||| c == '\u{202f}'
    ||| c == '\u{205f}'
    ||| c == '\u{3000}'
}

/// The first index at or after `from` where `s` holds `c`, or `s.len()` when
/// there is none.
pub open spec fn find(s: Seq<char>, c: char, from: int) -> int
    decreases s.len() - from,
{
    if from >= s.len() {
        s.len() as int
    } else if s[from] == c {
        from
    } else {
        find(s, c, from + 1)
    }
}

/// The first index at or after `from` where `s` holds no white space, or
/// `s.len()` when there is none.
pub open spec fn leading(s: Seq<char>, from: int) -> int
    decreases s.len() - from,
{
    if from >= s.len() {
        s.len() as int
    } else if is_space(s[from]) {
        leading(s, from + 1)
    } else {
        from
    }
}

/// The end of `s[lo..to]` once its trailing white space is dropped.
pub open spec fn trailing(s: Seq<char>, lo: int, to: int) -> int
    decreases to - lo,
{
    if to <= lo {
        lo
    } else if is_space(s[to - 1]) {
        trailing(s, lo, to - 1)
    } else {
        to
    }
}

/// `s` without its leading and trailing white space.
pub open spec fn trimmed(s: Seq<char>) -> Seq<char> {
    let lo = leading(s, 0);
    s.subrange(lo, trailing(s, lo, s.len() as int))
}

/// The part of `s` before its first `c`; all of `s` when it holds none.
pub open spec fn before(s: Seq<char>, c: char) -> Seq<char> {
    s.subrange(0, find(s, c, 0))
}

/// The media type that one candidate of the list names: the candidate is
/// trimmed first and its parameters are cut off afterwards.
pub open spec fn media_of(candidate: Seq<char>) -> Seq<char> {
    before(trimmed(candidate), ';')
}

/// The supported representation with exactly this name.
pub open spec fn known(media: Seq<char>) -> Option<MediaType> {
    if media == MediaType::Json.name() {
        Some(MediaType::Json)
    } else if media == MediaType::Html.name() {
        Some(MediaType::Html)
    } else if media == MediaType::Plain.name() {
        Some(MediaType::Plain)
    } else {
        None
    }
}

/// The candidates of the list: the pieces between its commas, in the order
/// written. A list without comma is one candidate, also when it is empty.
pub open spec fn candidates(accept: Seq<char>) -> Seq<Seq<char>>
    decreases accept.len(),
    via candidates_decreases
{
    let end = find(accept, ',', 0);
    if end >= accept.len() {
        seq![accept]
    } else {
        seq![accept.subrange(0, end)] + candidates(accept.subrange(end + 1, accept.len() as int))
    }
}

#[via_fn]
proof fn candidates_decreases(accept: Seq<char>) {
    lemma_find_bounds(accept, ',', 0);
}

/// The representation named by the first of `list` that names a supported
/// one.
pub open spec fn first_supported(list: Seq<Seq<char>>) -> Option<MediaType>
    decreases list.len(),
{
    if list.len() == 0 {
        None
    } else {
        match known(media_of(list[0])) {
            Some(m) => Some(m),
            None => first_supported(list.skip(1)),
        }
    }
}

/// The representation named by the first candidate of `accept` that names a
/// supported one.
pub open spec fn first_known(accept: Seq<char>) -> Option<MediaType> {
    first_supported(candidates(accept))
}

/// The representation to answer with: the first supported candidate of the
/// header, and HTML when the header is absent or names none.
pub open spec fn negotiated(accept: Option<Seq<char>>) -> MediaType {
    match accept {
        Some(a) => match first_known(a) {
            Some(m) => m,
            None => MediaType::Html,
        },
        None => MediaType::Html,
    }
}

/// `find` stays within the string, stops on a `c`, and passes over none.
pub proof fn lemma_find_bounds(s: Seq<char>, c: char, from: int)
    requires
        0 <= from <= s.len(),
    ensures
        from <= find(s, c, from) <= s.len(),
        find(s, c, from) < s.len() ==> s[find(s, c, from)] == c,
        forall|i: int| from <= i < find(s, c, from) ==> s[i] != c,
    decreases s.len() - from,
{
    if from < s.len() && s[from] != c {
        lemma_find_bounds(s, c, from + 1);
    }
}

/// No candidate holds a comma.
pub proof fn lemma_candidates_hold_no_comma(accept: Seq<char>, i: int)
    requires
        0 <= i < candidates(accept).len(),
    ensures
        !candidates(accept)[i].contains(','),
    decreases accept.len(),
{
    lemma_find_bounds(accept, ',', 0);
    let end = find(accept, ',', 0);
    if end >= accept.len() {
        assert(candidates(accept)[i] == accept);
    } else if i == 0 {
        assert(candidates(accept)[0] == accept.subrange(0, end));
    } else {
        let rest = accept.subrange(end + 1, accept.len() as int);
        assert(candidates(accept)[i] == candidates(rest)[i - 1]);
        lemma_candidates_hold_no_comma(rest, i - 1);
    }
}

/// The pieces of `list` written one after the other with a comma between
/// each two.
pub open spec fn joined(list: Seq<Seq<char>>) -> Seq<char>
    decreases list.len(),
{
    if list.len() == 0 {
        Seq::empty()
    } else if list.len() == 1 {
        list[0]
    } else {
        list[0] + seq![','] + joined(list.skip(1))
    }
}

/// The candidates are the list cut at its commas: there is at least one, and
/// joined by commas they give the list back.
pub proof fn lemma_candidates_rejoin(accept: Seq<char>)
    ensures
        candidates(accept).len() >= 1,
        joined(candidates(accept)) == accept,
    decreases accept.len(),
{
    lemma_find_bounds(accept, ',', 0);
    let end = find(accept, ',', 0);
    if end < accept.len() {
        let rest = accept.subrange(end + 1, accept.len() as int);
        lemma_candidates_rejoin(rest);
        assert(candidates(accept).skip(1) =~= candidates(rest));
        assert(accept.subrange(0, end) + seq![','] + rest =~= accept);
    }
}

/// First match wins: a candidate that names a supported representation
/// decides, whatever follows it, when no candidate before it names one.
pub proof fn lemma_first_match_wins(list: Seq<Seq<char>>, i: int)
    requires
        0 <= i < list.len(),
        known(media_of(list[i])) is Some,
        forall|j: int| 0 <= j < i ==> known(media_of(#[trigger] list[j])) is None,
    ensures
        first_supported(list) == known(media_of(list[i])),
    decreases list.len(),
{
    if i > 0 {
        assert(known(media_of(list[0])) is None);
        lemma_first_match_wins(list.skip(1), i - 1);
    }
}

/// Without a candidate that names a supported representation there is no
/// match.
pub proof fn lemma_no_match(list: Seq<Seq<char>>)
    requires
        forall|j: int| 0 <= j < list.len() ==> known(media_of(#[trigger] list[j])) is None,
    ensures
        first_supported(list) is None,
    decreases list.len(),
{
    if list.len() > 0 {
        assert(known(media_of(list[0])) is None);
        lemma_no_match(list.skip(1));
    }
}

/// How the scan proceeds: the first candidate decides if it names a
/// supported representation; otherwise what follows its comma does.
pub proof fn lemma_first_known_step(accept: Seq<char>)
    ensures
        first_known(accept) == ({
            let end = find(accept, ',', 0);
            match known(media_of(accept.subrange(0, end))) {
                Some(m) => Some(m),
                None => if end >= accept.len() {
                    None
                } else {
                    first_known(accept.subrange(end + 1, accept.len() as int))
                },
            }
        }),
{
    lemma_find_bounds(accept, ',', 0);
    let end = find(accept, ',', 0);
    let list = candidates(accept);
    if end >= accept.len() {
        assert(accept.subrange(0, end) =~= accept);
        assert(list.skip(1) =~= Seq::<Seq<char>>::empty());
        assert(first_supported(list.skip(1)) is None);
    } else {
        assert(list.skip(1) =~= candidates(accept.subrange(end + 1, accept.len() as int)));
    }
}

/// `leading` stays within the string and passes over white space only.
pub proof fn lemma_leading_bounds(s: Seq<char>, from: int)
    requires
        0 <= from <= s.len(),
    ensures
        from <= leading(s, from) <= s.len(),
        leading(s, from) < s.len() ==> !is_space(s[leading(s, from)]),
        forall|i: int| from <= i < leading(s, from) ==> is_space(s[i]),
    decreases s.len() - from,
{
    if from < s.len() && is_space(s[from]) {
        lemma_leading_bounds(s, from + 1);
    }
}

/// `trailing` stays within its range and passes over white space only.
pub proof fn lemma_trailing_bounds(s: Seq<char>, lo: int, to: int)
    requires
        0 <= lo <= to <= s.len(),
    ensures
        lo <= trailing(s, lo, to) <= to,
        lo < trailing(s, lo, to) ==> !is_space(s[trailing(s, lo, to) - 1]),
        forall|i: int| trailing(s, lo, to) <= i < to ==> is_space(s[i]),
    decreases to - lo,
{
    if lo < to && is_space(s[to - 1]) {
        lemma_trailing_bounds(s, lo, to - 1);
    }
}

/// Trimming takes away white space and nothing else, and what it leaves
/// neither starts nor ends with white space.
pub proof fn lemma_trimmed(s: Seq<char>)
    ensures
        ({
            let lo = leading(s, 0);
            let hi = trailing(s, lo, s.len() as int);
            &&& 0 <= lo <= hi <= s.len()
            &&& trimmed(s) == s.subrange(lo, hi)
            &&& forall|i: int| 0 <= i < lo ==> is_space(s[i])
            &&& forall|i: int| hi <= i < s.len() ==> is_space(s[i])
            &&& lo < hi ==> !is_space(trimmed(s).first()) && !is_space(trimmed(s).last())
        }),
{
    lemma_leading_bounds(s, 0);
    lemma_trailing_bounds(s, leading(s, 0), s.len() as int);
}

/// A string that neither starts nor ends with white space is its own trim.
pub proof fn lemma_trimmed_unchanged(s: Seq<char>)
    requires
        s.len() > 0 ==> !is_space(s.first()) && !is_space(s.last()),
    ensures
        trimmed(s) == s,
{
    assert(s.subrange(0, s.len() as int) =~= s);
}

/// A string without `c` is all before its first `c`.
pub proof fn lemma_before_unchanged(s: Seq<char>, c: char)
    requires
        !s.contains(c),
    ensures
        before(s, c) == s,
{
    lemma_find_bounds(s, c, 0);
    assert(s.subrange(0, s.len() as int) =~= s);
}

/// A header without comma is a single candidate.
pub proof fn lemma_single_candidate(accept: Seq<char>)
    requires
        !accept.contains(','),
    ensures
        candidates(accept) == seq![accept],
        first_known(accept) == known(media_of(accept)),
{
    lemma_find_bounds(accept, ',', 0);
    assert(candidates(accept).skip(1) =~= Seq::<Seq<char>>::empty());
    assert(first_supported(candidates(accept).skip(1)) is None);
}

/// A header that is exactly the name of a supported representation is
/// answered in that representation.
pub proof fn lemma_exact_name(media: MediaType)
    ensures
        known(media.name()) == Some(media),
        negotiated(Some(media.name())) == media,
{
    reveal_strlit("application/json");
    reveal_strlit("text/html");
    reveal_strlit("text/plain");
    let name = media.name();
    assert("application/json"@.len() == 16);
    assert("text/html"@.len() == 9);
    assert("text/plain"@.len() == 10);
    assert(known(name) == Some(media));
    assert(!name.contains(','));
    assert(!name.contains(';'));
    lemma_trimmed_unchanged(name);
    lemma_before_unchanged(name, ';');
    lemma_single_candidate(name);
}

pub fn is_whitespace(c: char) -> (b: bool)
    ensures
        b == is_space(c),
{
    ('\u{9}' <= c && c <= '\u{d}') || c == ' ' || c == '\u{85}' || c == '\u{a0}' || c
        == '\u{1680}' || ('\u{2000}' <= c && c <= '\u{200a}') || c == '\u{2028}' || c
        == '\u{2029}' || c == '\u{202f}' || c == '\u{205f}' || c == '\u{3000}'
}

/// The position of the first `c` in `s`, counted in characters; the length of
/// `s` when it holds none.
pub fn find_char(s: &str, c: char) -> (at: usize)
    ensures
        at == find(s@, c, 0),
        at <= s@.len(),
{
    let n: usize = s.unicode_len();
    let mut i: usize = 0;
    while i < n && s.get_char(i) != c
        invariant
            n == s@.len(),
            i <= n,
            find(s@, c, 0) == find(s@, c, i as int),
        decreases n - i,
    {
        i += 1;
    }
    i
}

/// `s` without leading and trailing white space.
pub fn trim(s: &str) -> (r: &str)
    ensures
        r@ == trimmed(s@),
{
    let n: usize = s.unicode_len();
    let mut lo: usize = 0;
    while lo < n && is_whitespace(s.get_char(lo))
        invariant
            n == s@.len(),
            lo <= n,
            leading(s@, 0) == leading(s@, lo as int),
        decreases n - lo,
    {
        lo += 1;
    }
    let mut hi: usize = n;
    while hi > lo && is_whitespace(s.get_char(hi - 1))
        invariant
            n == s@.len(),
            lo <= hi <= n,
            trailing(s@, lo as int, n as int) == trailing(s@, lo as int, hi as int),
        decreases hi - lo,
    {
        hi -= 1;
    }
    s.substring_char(lo, hi)
}

/// The media type of one candidate of the list.
pub fn media_type(candidate: &str) -> (r: &str)
    ensures
        r@ == media_of(candidate@),
{
    let t = trim(candidate);
    let cut: usize = find_char(t, ';');
    t.substring_char(0, cut)
}

/// Whether two strings hold the same characters.
pub fn same_text(a: &str, b: &str) -> (eq: bool)
    ensures
        eq == (a@ == b@),
{
    let n: usize = a.unicode_len();
    if n != b.unicode_len() {
        return false;
    }
    let mut i: usize = 0;
    while i < n
        invariant
            n == a@.len(),
            n == b@.len(),
            i <= n,
            a@.subrange(0, i as int) == b@.subrange(0, i as int),
        decreases n - i,
    {
        if a.get_char(i) != b.get_char(i) {
            return false;
        }
        assert(a@.subrange(0, i + 1) =~= a@.subrange(0, i as int).push(a@[i as int]));
        assert(b@.subrange(0, i + 1) =~= b@.subrange(0, i as int).push(b@[i as int]));
        i += 1;
    }
    assert(a@ =~= a@.subrange(0, n as int));
    assert(b@ =~= b@.subrange(0, n as int));
    true
}

/// The supported representation that `media` names, if any.
pub fn recognize(media: &str) -> (r: Option<MediaType>)
    ensures
        r == known(media@),
{
    if same_text(media, MediaType::Json.as_str()) {
        Some(MediaType::Json)
    } else if same_text(media, MediaType::Html.as_str()) {
        Some(MediaType::Html)
    } else if same_text(media, MediaType::Plain.as_str()) {
        Some(MediaType::Plain)
    } else {
        None
    }
}

/// Scans the candidates of `accept` in the order written and returns the
/// first supported representation one of them names.
pub fn first_acceptable(accept: &str) -> (r: Option<MediaType>)
    ensures
        r == first_known(accept@),
{
    let mut rest: &str = accept;
    loop
        invariant
            first_known(accept@) == first_known(rest@),
        decreases rest@.len(),
    {
        let n: usize = rest.unicode_len();
        let end: usize = find_char(rest, ',');
        proof {
            lemma_first_known_step(rest@);
        }
        let found = recognize(media_type(rest.substring_char(0, end)));
        if found.is_some() {
            return found;
        }
        if end >= n {
            return None;
        }
        rest = rest.substring_char(end + 1, n);
    }
}

/// Chooses the representation for a request with this `accept` header.
pub fn negotiate(accept: Option<&str>) -> (r: MediaType)
    ensures
        r == negotiated(
            match accept {
                Some(a) => Some(a@),
                None => None,
            },
        ),
{
    match accept {
        Some(a) => match first_acceptable(a) {
            Some(m) => m,
            None => MediaType::Html,
        },
        None => MediaType::Html,
    }
}

} // verus!
