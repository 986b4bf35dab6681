//! What the proofs take for granted about editing a `String` character by
//! character.

use vstd::prelude::*;

verus! {

/// `String::push`: the character is appended to the end of the string, and the
/// rest of the string stays as it was.
pub assume_specification[ String::push ](text: &mut String, ch: char)
    ensures
        final(text)@ == old(text)@.push(ch),
;

/// `String::pop`: the last character is removed from the string and returned; an
/// empty string stays empty and `None` is returned.
pub assume_specification[ String::pop ](text: &mut String) -> (last: Option<char>)
    ensures
        old(text)@.len() == 0 ==> last is None && final(text)@ == old(text)@,
        old(text)@.len() > 0 ==> last == Some(old(text)@.last()) && final(text)@ == old(
            text,
        )@.drop_last(),
;

} // verus!
