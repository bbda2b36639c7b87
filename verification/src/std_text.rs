//! What this crate takes on trust of `std`'s text types.

use vstd::prelude::*;

verus! {

/// Whether `c` counts as white space: what `char::is_whitespace` says of
/// it, which goes by the Unicode property White_Space.
pub uninterp spec fn white_space(c: char) -> bool;

/// `char::is_whitespace` depends on the character alone.
pub assume_specification[ char::is_whitespace ](c: char) -> (yes: bool)
    ensures
        yes == white_space(c),
;

/// `String::push` appends the given character to the end of the string
/// and leaves what was there before unchanged.
pub assume_specification[ String::push ](text: &mut String, ch: char)
    ensures
        final(text)@ == old(text)@.push(ch),
;

} // verus!
