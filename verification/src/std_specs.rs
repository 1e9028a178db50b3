//! Specifications for the standard library functions that the crate calls and
//! that `vstd` leaves unspecified. Verus takes each of them on trust.

use vstd::prelude::*;

verus! {

/// `str`'s `==` compares the two slices by content: it holds exactly when both
/// are the same sequence of characters.
pub assume_specification[ <str as PartialEq>::eq ](a: &str, b: &str) -> (same: bool)
    ensures
        same == (a@ == b@),
;

/// `String::push` appends the given character to the end of the string and
/// leaves what was there in place.
pub assume_specification[ String::push ](s: &mut String, c: char)
    ensures
        final(s)@ == old(s)@.push(c),
;

} // verus!
