//! Tests on strings, character by character.

use vstd::prelude::*;
use vstd::string::*;

verus! {

/// Whether `suffix` matches the end of `text`.
pub(crate) fn ends_with(text: &str, suffix: &str) -> (found: bool)
    ensures
        found == suffix@.is_suffix_of(text@),
{
    let length = text.unicode_len();
    let wanted = suffix.unicode_len();
    if wanted > length {
        return false;
    }
    let tail = text.substring_char(length - wanted, length);
    tail.to_owned() == suffix.to_owned()
}

/// Whether `wanted` occurs in `text`.
pub(crate) fn contains_char(text: &str, wanted: char) -> (found: bool)
    ensures
        found == text@.contains(wanted),
{
    let length = text.unicode_len();
    let mut at: usize = 0;
    while at < length
        invariant
            length == text@.len(),
            at <= length,
            forall|seen: int| 0 <= seen < at ==> text@[seen] != wanted,
        decreases length - at,
    {
        if text.get_char(at) == wanted {
            return true;
        }
        at = at + 1;
    }
    false
}

} // verus!
