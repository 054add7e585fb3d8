//! What the library takes for granted of the standard string type.

use vstd::prelude::*;

verus! {

/// `String::push` of the standard library: it appends the given character at
/// the end of the string and leaves what was there as it is.
pub assume_specification[ String::push ](text: &mut String, c: char)
    ensures
        final(text)@ == old(text)@.push(c),
;

} // verus!
