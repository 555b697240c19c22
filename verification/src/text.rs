//! Comparing a string with a sequence of characters.

use vstd::prelude::*;
use vstd::std_specs::iter::IteratorSpec;

verus! {

/// Whether `text` begins with the characters of `prefix`.
pub fn starts_with(text: &str, prefix: &[char]) -> (found: bool)
    ensures
        found == prefix@.is_prefix_of(text@),
{
    let mut rest = text.chars();
    let mut i: usize = 0;
    while i < prefix.len()
        invariant
            i <= prefix.len(),
            i <= text@.len(),
            rest.obeys_prophetic_iter_laws(),
            rest.remaining() == text@.skip(i as int),
            prefix@.take(i as int) == text@.take(i as int),
        decreases prefix.len() - i,
    {
        match rest.next() {
            None => {
                return false;
            },
            Some(c) => {
                if c != prefix[i] {
                    return false;
                }
            },
        }
        i += 1;
    }
    true
}

} // verus!
