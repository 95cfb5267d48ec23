//! Comparisons on text, character by character.

use vstd::prelude::*;

verus! {

/// Whether `text` begins with `prefix`.
pub fn has_prefix(text: &str, prefix: &str) -> (found: bool)
    ensures
        found == prefix@.is_prefix_of(text@),
{
    let wanted = prefix.unicode_len();
    if text.unicode_len() < wanted {
        return false;
    }
    let mut i: usize = 0;
    while i < wanted
        invariant
            i <= wanted,
            wanted == prefix@.len(),
            wanted <= text@.len(),
            forall|j: int| 0 <= j < i ==> text@[j] == prefix@[j],
        decreases wanted - i,
    {
        if text.get_char(i) != prefix.get_char(i) {
            assert(text@.subrange(0, wanted as int)[i as int] != prefix@[i as int]);
            return false;
        }
        i += 1;
    }
    assert(prefix@ =~= text@.subrange(0, wanted as int));
    true
}

/// Whether two texts hold the same characters.
pub fn same_text(left: &str, right: &str) -> (same: bool)
    ensures
        same == (left@ == right@),
{
    if left.unicode_len() != right.unicode_len() {
        return false;
    }
    let same = has_prefix(left, right);
    assert(left@.subrange(0, left@.len() as int) =~= left@);
    same
}

} // verus!
