//! Comparing texts character by character.

use vstd::prelude::*;

verus! {

/// Whether two texts hold the same characters.
pub fn same_text(left: &str, right: &str) -> (same: bool)
    ensures
        same == (left@ == right@),
{
    let length: usize = left.unicode_len();
    if right.unicode_len() != length {
        return false;
    }
    let mut at: usize = 0;
    while at < length
        invariant
            at <= length,
            length == left@.len(),
            length == right@.len(),
            forall|before: int| 0 <= before < at ==> left@[before] == right@[before],
        decreases length - at,
    {
        if left.get_char(at) != right.get_char(at) {
            return false;
        }
        at += 1;
    }
    assert(left@ =~= right@);
    true
}

} // verus!
