//! Substring search used by the list filters.
//!
//! Filtering is plain substring match, case-insensitive by default. Case
//! folding is delegated to the standard library; the search itself is
//! implemented and verified here.

use vstd::prelude::*;

verus! {

/// `needle` occurs contiguously somewhere inside `hay`.
pub open spec fn is_substring_of(needle: Seq<char>, hay: Seq<char>) -> bool {
    exists|i: int|
        0 <= i && i + needle.len() <= hay.len() && #[trigger] hay.subrange(
            i,
            i + needle.len() as int,
        ) == needle
}

/// The lowercase form of a character sequence, as the standard library's
/// case folding produces it.
pub uninterp spec fn lower_of(s: Seq<char>) -> Seq<char>;

/// Relies on `str::to_lowercase`: the result is a function of the input
/// characters alone.
#[verifier::external_body]
pub(crate) fn lowercase(s: &str) -> (r: String)
    ensures
        r@ == lower_of(s@),
{
    s.to_lowercase()
}

/// Substring search: does `hay` contain `needle`?
pub fn str_contains(hay: &str, needle: &str) -> (r: bool)
    ensures
        r == is_substring_of(needle@, hay@),
{
    let hay_len = hay.unicode_len();
    let needle_len = needle.unicode_len();
    if needle_len > hay_len {
        return false;
    }
    let mut i: usize = 0;
    while i <= hay_len - needle_len
        invariant
            hay_len == hay@.len(),
            needle_len == needle@.len(),
            needle_len <= hay_len,
            i <= hay_len - needle_len + 1,
            forall|k: int|
                0 <= k < i ==> #[trigger] hay@.subrange(k, k + needle@.len() as int)
                    != needle@,
        decreases hay_len - needle_len + 1 - i,
    {
        let mut j: usize = 0;
        let mut mismatch = false;
        while !mismatch && j < needle_len
            invariant
                hay_len == hay@.len(),
                needle_len == needle@.len(),
                needle_len <= hay_len,
                i <= hay_len - needle_len,
                j <= needle_len,
                !mismatch ==> forall|u: int| 0 <= u < j ==> #[trigger] hay@[i + u] == needle@[u],
                mismatch ==> exists|u: int|
                    0 <= u < needle@.len() && #[trigger] hay@[i + u] != needle@[u],
            decreases needle_len - j + (if mismatch { 0int } else { 1int }),
        {
            if hay.get_char(i + j) != needle.get_char(j) {
                mismatch = true;
            } else {
                j += 1;
            }
        }
        if !mismatch {
            proof {
                let s = hay@.subrange(i as int, i + needle@.len() as int);
                assert(forall|u: int| 0 <= u < needle@.len() ==> #[trigger] s[u] == hay@[i + u]);
                assert(s =~= needle@);
            }
            return true;
        }
        proof {
            let u = choose|u: int| 0 <= u < needle@.len() && hay@[i + u] != needle@[u];
            assert(hay@.subrange(i as int, i + needle@.len() as int)[u] == hay@[i + u]);
        }
        i += 1;
    }
    assert(forall|k: int|
        0 <= k && k + needle@.len() <= hay@.len() ==> #[trigger] hay@.subrange(
            k,
            k + needle@.len() as int,
        ) != needle@);
    false
}

/// Relies on `String::push`: appends exactly one character.
#[verifier::external_body]
pub(crate) fn push_char(s: &mut String, c: char)
    ensures
        final(s)@ == old(s)@.push(c),
{
    s.push(c)
}

/// Relies on `String::pop`: removes and returns the last character, if
/// any.
#[verifier::external_body]
pub(crate) fn pop_char(s: &mut String) -> (r: Option<char>)
    ensures
        old(s)@.len() == 0 ==> r is None && final(s)@ == old(s)@,
        old(s)@.len() > 0 ==> r == Some(old(s)@.last()) && final(s)@ == old(s)@.drop_last(),
{
    s.pop()
}

/// An item that the list filter can be matched against.
///
/// `spec_matches` is the mathematical meaning; `matches` is the executable
/// check, held to it. Case-insensitive matching goes through the standard
/// library's case folding on both the item's text and the filter.
pub trait MatchesSearch {
    /// What it means for this item to match `filter`.
    spec fn spec_matches(&self, filter: Seq<char>, ignorecase: bool) -> bool;

    /// Substring match of `filter` against this item's display text.
    fn matches(&self, filter: &str, ignorecase: bool) -> (r: bool)
        ensures
            r == self.spec_matches(filter@, ignorecase),
    ;
}

impl MatchesSearch for String {
    open spec fn spec_matches(&self, filter: Seq<char>, ignorecase: bool) -> bool {
        if ignorecase {
            is_substring_of(lower_of(filter), lower_of(self@))
        } else {
            is_substring_of(filter, self@)
        }
    }

    fn matches(&self, filter: &str, ignorecase: bool) -> (r: bool) {
        if ignorecase {
            let folded_self = lowercase(self.as_str());
            let folded_filter = lowercase(filter);
            str_contains(folded_self.as_str(), folded_filter.as_str())
        } else {
            str_contains(self.as_str(), filter)
        }
    }
}

} // verus!
