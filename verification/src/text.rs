//! String operations of the standard library that the path and scheme rules use.

use vstd::prelude::*;

verus! {

/// `s` with every leading repetition of `pattern` removed.
pub open spec fn trim_start(s: Seq<char>, pattern: Seq<char>) -> Seq<char>
    decreases s.len(),
{
    if pattern.len() > 0 && pattern.is_prefix_of(s) {
        trim_start(s.skip(pattern.len() as int), pattern)
    } else {
        s
    }
}

/// The lowercase equivalent of `s`, as the standard library's Unicode tables define it.
pub uninterp spec fn lowercase(s: Seq<char>) -> Seq<char>;

/// `str`'s `==`: two string slices are equal exactly when they hold the same characters.
pub assume_specification[ <str as PartialEq>::eq ](a: &str, b: &str) -> (r: bool)
    ensures
        r == (a@ == b@),
;

/// `str::trim_start_matches` with a string pattern: the result is the slice that is left when
/// all prefixes that match the pattern are removed, repeatedly. The empty pattern is left out.
#[verifier::external_body]
pub(crate) fn trim_start_matches<'a>(s: &'a str, pattern: &str) -> (r: &'a str)
    requires
        pattern@.len() > 0,
    ensures
        r@ == trim_start(s@, pattern@),
{
    s.trim_start_matches(pattern)
}

/// `str::to_lowercase`: the result is the lowercase equivalent of the slice, a function of its
/// characters alone.
#[verifier::external_body]
pub(crate) fn to_lowercase(s: &str) -> (r: String)
    ensures
        r@ == lowercase(s@),
{
    s.to_lowercase()
}

/// Removing leading repetitions of a pattern from the pattern itself leaves nothing.
pub proof fn lemma_trim_start_self(pattern: Seq<char>)
    requires
        pattern.len() > 0,
    ensures
        trim_start(pattern, pattern) == Seq::<char>::empty(),
{
    let rest = pattern.skip(pattern.len() as int);
    assert(pattern.is_prefix_of(pattern));
    assert(rest =~= Seq::<char>::empty());
    assert(!pattern.is_prefix_of(rest));
    assert(trim_start(rest, pattern) == rest);
}

} // verus!
