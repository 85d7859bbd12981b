//! ASCII text helpers shared by the key-material decoder and the
//! configuration parsers: whitespace trimming, case-insensitive comparison
//! and prefix tests, all over byte texts.

use vstd::prelude::*;

verus! {

/// An ASCII whitespace byte: space, tab, line feed, form feed or carriage
/// return.
pub open spec fn is_ascii_space(b: u8) -> bool {
    b == 0x20 || b == 0x09 || b == 0x0a || b == 0x0c || b == 0x0d
}

/// ASCII lowercasing of one byte; bytes outside `A..=Z` are unchanged.
pub open spec fn spec_ascii_lower(b: u8) -> u8 {
    if 0x41 <= b && b <= 0x5a {
        (b + 0x20) as u8
    } else {
        b
    }
}

/// Case-insensitive equality of two byte texts, folding only ASCII letters.
pub open spec fn spec_eq_ignore_ascii_case(a: Seq<u8>, b: Seq<u8>) -> bool {
    a.len() == b.len() && forall|i: int|
        0 <= i < a.len() ==> spec_ascii_lower(a[i]) == spec_ascii_lower(b[i])
}

/// `p` is a prefix of `s`.
pub open spec fn spec_starts_with(s: Seq<u8>, p: Seq<u8>) -> bool {
    s.len() >= p.len() && s.take(p.len() as int) == p
}

/// The text with leading ASCII whitespace removed.
pub open spec fn spec_trim_start(s: Seq<u8>) -> Seq<u8>
    decreases s.len(),
{
    if s.len() > 0 && is_ascii_space(s[0]) {
        spec_trim_start(s.drop_first())
    } else {
        s
    }
}

/// The text with trailing ASCII whitespace removed.
pub open spec fn spec_trim_end(s: Seq<u8>) -> Seq<u8>
    decreases s.len(),
{
    if s.len() > 0 && is_ascii_space(s[s.len() - 1]) {
        spec_trim_end(s.drop_last())
    } else {
        s
    }
}

/// The text with ASCII whitespace removed at both ends.
pub open spec fn spec_trim(s: Seq<u8>) -> Seq<u8> {
    spec_trim_end(spec_trim_start(s))
}

/// Trimming from the start removes exactly the leading run of whitespace.
pub proof fn lemma_trim_start_skip(s: Seq<u8>, i: int)
    requires
        0 <= i <= s.len(),
        forall|j: int| 0 <= j < i ==> is_ascii_space(s[j]),
        i == s.len() || !is_ascii_space(s[i]),
    ensures
        spec_trim_start(s) == s.skip(i),
    decreases i,
{
    if i == 0 {
        assert(s.skip(0) =~= s);
    } else {
        let t = s.drop_first();
        assert(forall|j: int| 0 <= j < i - 1 ==> is_ascii_space(t[j]));
        lemma_trim_start_skip(t, i - 1);
        assert(t.skip(i - 1) =~= s.skip(i));
    }
}

/// Trimming from the end removes exactly the trailing run of whitespace.
pub proof fn lemma_trim_end_take(s: Seq<u8>, e: int)
    requires
        0 <= e <= s.len(),
        forall|j: int| e <= j < s.len() ==> is_ascii_space(s[j]),
        e == 0 || !is_ascii_space(s[e - 1]),
    ensures
        spec_trim_end(s) == s.take(e),
    decreases s.len(),
{
    if e == s.len() {
        assert(s.take(e) =~= s);
    } else {
        let t = s.drop_last();
        assert(is_ascii_space(s[s.len() - 1]));
        lemma_trim_end_take(t, e);
        assert(t.take(e) =~= s.take(e));
    }
}

/// A text without any ASCII whitespace is left unchanged by trimming.
pub proof fn lemma_trim_nonspace(s: Seq<u8>)
    requires
        forall|j: int| 0 <= j < s.len() ==> !is_ascii_space(s[j]),
    ensures
        spec_trim(s) == s,
{
    lemma_trim_start_skip(s, 0);
    assert(s.skip(0) =~= s);
    lemma_trim_end_take(s, s.len() as int);
    assert(s.take(s.len() as int) =~= s);
}

/// Whether one byte is ASCII whitespace.
pub fn is_space(b: u8) -> (r: bool)
    ensures
        r == is_ascii_space(b),
{
    b == 0x20 || b == 0x09 || b == 0x0a || b == 0x0c || b == 0x0d
}

/// ASCII lowercasing of one byte.
pub fn ascii_lower(b: u8) -> (r: u8)
    ensures
        r == spec_ascii_lower(b),
{
    if b >= 0x41 && b <= 0x5a {
        b + 0x20
    } else {
        b
    }
}

/// The slice with ASCII whitespace removed at both ends.
pub fn trim(s: &[u8]) -> (r: &[u8])
    ensures
        r@ == spec_trim(s@),
{
    let mut start: usize = 0;
    while start < s.len() && is_space(s[start])
        invariant
            start <= s@.len(),
            forall|j: int| 0 <= j < start ==> is_ascii_space(s@[j]),
        decreases s@.len() - start,
    {
        start = start + 1;
    }
    let mut end: usize = s.len();
    while end > start && is_space(s[end - 1])
        invariant
            start <= end <= s@.len(),
            forall|j: int| 0 <= j < start ==> is_ascii_space(s@[j]),
            forall|j: int| end <= j < s@.len() ==> is_ascii_space(s@[j]),
        decreases end,
    {
        end = end - 1;
    }
    proof {
        lemma_trim_start_skip(s@, start as int);
        let t = s@.skip(start as int);
        assert(forall|j: int| end - start <= j < t.len() ==> is_ascii_space(t[j]));
        lemma_trim_end_take(t, end - start);
        assert(t.take(end - start) =~= s@.subrange(start as int, end as int));
    }
    &s[start..end]
}

/// Case-insensitive equality of two byte slices, folding only ASCII letters.
pub fn eq_ignore_case(a: &[u8], b: &[u8]) -> (r: bool)
    ensures
        r == spec_eq_ignore_ascii_case(a@, b@),
{
    if a.len() != b.len() {
        return false;
    }
    let mut i: usize = 0;
    while i < a.len()
        invariant
            a@.len() == b@.len(),
            i <= a@.len(),
            forall|j: int| 0 <= j < i ==> spec_ascii_lower(a@[j]) == spec_ascii_lower(b@[j]),
        decreases a@.len() - i,
    {
        if ascii_lower(a[i]) != ascii_lower(b[i]) {
            return false;
        }
        i = i + 1;
    }
    true
}

/// Whether `p` is a prefix of `s`.
pub fn starts_with(s: &[u8], p: &[u8]) -> (r: bool)
    ensures
        r == spec_starts_with(s@, p@),
{
    if s.len() < p.len() {
        return false;
    }
    let mut i: usize = 0;
    while i < p.len()
        invariant
            s@.len() >= p@.len(),
            i <= p@.len(),
            forall|j: int| 0 <= j < i ==> s@[j] == p@[j],
        decreases p@.len() - i,
    {
        if s[i] != p[i] {
            assert(s@.take(p@.len() as int)[i as int] != p@[i as int]);
            return false;
        }
        i = i + 1;
    }
    assert(s@.take(p@.len() as int) =~= p@);
    true
}

} // verus!
