//! Strings as sequences of characters: the views that the contracts of this
//! library speak of, and the comparisons that its rules are made of.

use vstd::prelude::*;
use vstd::string::*;

verus! {

/// The characters of each string of `v`, in order.
pub open spec fn codes(v: Seq<String>) -> Seq<Seq<char>> {
    v.map_values(|s: String| s@)
}

/// The characters of an optional string.
pub open spec fn text_view(text: Option<String>) -> Option<Seq<char>> {
    match text {
        Some(t) => Some(t@),
        None => None,
    }
}

/// Whether the `len` characters of `text` from `at` on are those of `part`.
fn matches_at(text: &str, at: usize, part: &str, len: usize) -> (same: bool)
    requires
        len == part@.len(),
        at + len <= text@.len() <= usize::MAX,
    ensures
        same == (text@.subrange(at as int, at + len) == part@),
{
    let mut i: usize = 0;
    while i < len
        invariant
            i <= len,
            len == part@.len(),
            at + len <= text@.len() <= usize::MAX,
            forall|j: int| 0 <= j < i ==> part@[j] == text@[at + j],
        decreases len - i,
    {
        if part.get_char(i) != text.get_char(at + i) {
            assert(text@.subrange(at as int, at + len)[i as int] != part@[i as int]);
            return false;
        }
        i += 1;
    }
    assert(text@.subrange(at as int, at + len) =~= part@);
    true
}

/// Whether `text` starts with `prefix`.
pub fn starts_with(text: &str, prefix: &str) -> (starts: bool)
    ensures
        starts == prefix@.is_prefix_of(text@),
{
    let len: usize = prefix.unicode_len();
    if text.unicode_len() < len {
        return false;
    }
    matches_at(text, 0, prefix, len)
}

/// Whether `text` ends with `suffix`.
pub fn ends_with(text: &str, suffix: &str) -> (ends: bool)
    ensures
        ends == suffix@.is_suffix_of(text@),
{
    let len: usize = suffix.unicode_len();
    let whole: usize = text.unicode_len();
    if whole < len {
        return false;
    }
    matches_at(text, whole - len, suffix, len)
}

} // verus!
