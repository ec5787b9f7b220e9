//! Endpoint paths: templates such as `/teams/{teamId}` whose placeholders are
//! filled in with the caller's identifiers.

use vstd::prelude::*;

verus! {

/// `s` with every occurrence of `pat` replaced by `to`, taking occurrences
/// from the left and never overlapping.
pub open spec fn replace_all(s: Seq<char>, pat: Seq<char>, to: Seq<char>) -> Seq<char>
    decreases s.len(),
{
    if pat.len() == 0 || s.len() < pat.len() {
        s
    } else if s.subrange(0, pat.len() as int) == pat {
        to + replace_all(s.subrange(pat.len() as int, s.len() as int), pat, to)
    } else {
        seq![s[0]] + replace_all(s.subrange(1, s.len() as int), pat, to)
    }
}

/// Whether the character `c` occurs nowhere in `s`.
pub open spec fn lacks(s: Seq<char>, c: char) -> bool {
    forall|i: int| 0 <= i < s.len() ==> s[i] != c
}

/// A prefix that cannot start a placeholder is kept as it is.
pub proof fn lemma_replace_skips_prefix(p: Seq<char>, rest: Seq<char>, pat: Seq<char>, to: Seq<char>)
    requires
        pat.len() > 0,
        lacks(p, pat[0]),
    ensures
        replace_all(p + rest, pat, to) == p + replace_all(rest, pat, to),
    decreases p.len(),
{
    let s = p + rest;
    if p.len() == 0 {
        assert(s =~= rest);
        assert(p + replace_all(rest, pat, to) =~= replace_all(rest, pat, to));
    } else if s.len() < pat.len() {
        assert(replace_all(rest, pat, to) == rest);
    } else {
        assert(s.subrange(0, pat.len() as int)[0] != pat[0]);
        assert(s.subrange(1, s.len() as int) =~= p.subrange(1, p.len() as int) + rest);
        lemma_replace_skips_prefix(p.subrange(1, p.len() as int), rest, pat, to);
        assert(p =~= seq![p[0]] + p.subrange(1, p.len() as int));
        assert(seq![s[0]] + (p.subrange(1, p.len() as int) + replace_all(rest, pat, to)) =~= p
            + replace_all(rest, pat, to));
    }
}

/// A placeholder at the front is filled, and the rest is filled after it.
pub proof fn lemma_replace_at_front(pat: Seq<char>, rest: Seq<char>, to: Seq<char>)
    requires
        pat.len() > 0,
    ensures
        replace_all(pat + rest, pat, to) == to + replace_all(rest, pat, to),
{
    let s = pat + rest;
    assert(s.subrange(0, pat.len() as int) =~= pat);
    assert(s.subrange(pat.len() as int, s.len() as int) =~= rest);
}

/// A text that cannot start a placeholder is kept as it is.
pub proof fn lemma_replace_nothing(s: Seq<char>, pat: Seq<char>, to: Seq<char>)
    requires
        pat.len() > 0,
        lacks(s, pat[0]),
    ensures
        replace_all(s, pat, to) == s,
{
    lemma_replace_skips_prefix(s, Seq::empty(), pat, to);
    assert(s + Seq::<char>::empty() =~= s);
    assert(replace_all(Seq::<char>::empty(), pat, to) == Seq::<char>::empty());
    assert(s + Seq::<char>::empty() =~= s);
}

/// Fills every `pat` of the template `s` with `to`.
///
/// Relies on `str::replace`: it replaces all non-overlapping matches of a
/// pattern, found from the left, with the given string.
#[verifier::external_body]
pub(crate) fn fill(s: &str, pat: &str, to: &str) -> (r: String)
    requires
        pat@.len() > 0,
    ensures
        r@ == replace_all(s@, pat@, to@),
{
    s.replace(pat, to)
}

} // verus!
