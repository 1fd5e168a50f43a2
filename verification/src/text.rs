//! Character-level text helpers: equality of strings and substrings by
//! character range. All offsets here count Unicode scalar values.

use vstd::prelude::*;
use crate::ontology::CharRange;

verus! {

/// The strings in `v`, viewed as their character sequences.
pub open spec fn string_views(v: Seq<String>) -> Seq<Seq<char>> {
    v.map_values(|s: String| s@)
}

/// Character-by-character string equality.
pub fn str_eq(a: &str, b: &str) -> (r: bool)
    ensures
        r == (a@ == b@),
{
    let alen = a.unicode_len();
    let blen = b.unicode_len();
    if alen != blen {
        return false;
    }
    let mut i: usize = 0;
    while i < alen
        invariant
            alen == a@.len(),
            alen == b@.len(),
            0 <= i <= alen,
            forall|j: int| 0 <= j < i ==> a@[j] == b@[j],
        decreases alen - i,
    {
        if a.get_char(i) != b.get_char(i) {
            return false;
        }
        i = i + 1;
    }
    proof {
        assert(a@ =~= b@);
    }
    true
}

/// The characters of `text` selected by `range`, with the same clamping the
/// extraction collaborators use: offsets past the end of the text are cut
/// back to it, and an empty sequence comes back when the range is inverted.
pub open spec fn spec_char_slice(text: Seq<char>, range: CharRange) -> Seq<char> {
    let s = if range.start <= text.len() {
        range.start as int
    } else {
        text.len() as int
    };
    let e = if range.end <= text.len() {
        range.end as int
    } else {
        text.len() as int
    };
    if s <= e {
        text.subrange(s, e)
    } else {
        Seq::empty()
    }
}

/// The substring of `text` spanned by `range`, counted in characters.
pub fn substring_with_char_range(text: &str, range: &CharRange) -> (r: String)
    ensures
        r@ == spec_char_slice(text@, *range),
{
    let len = text.unicode_len();
    let s = if range.start <= len {
        range.start
    } else {
        len
    };
    let e = if range.end <= len {
        range.end
    } else {
        len
    };
    if s <= e {
        text.substring_char(s, e).to_owned()
    } else {
        String::new()
    }
}

} // verus!
