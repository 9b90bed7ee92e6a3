//! Small text helpers that the rest of the crate builds on.
use vstd::prelude::*;

verus! {

/// `String::push` appends one character to the end of the string, as the
/// standard library documents it.
pub assume_specification[ String::push ](s: &mut String, ch: char)
    ensures
        final(s)@ == old(s)@.push(ch),
;

} // verus!
