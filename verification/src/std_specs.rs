//! What this crate takes for granted of the standard library, where the
//! verifier's own library says nothing of an item.

use vstd::prelude::*;

verus! {

/// An error of the system's input and output, as `std::io` reports it.
/// Nothing is known of what is inside.
#[verifier::external_type_specification]
#[verifier::external_body]
pub struct ExIoError(std::io::Error);

/// `String::push` appends one character to the string.
pub assume_specification[ String::push ](s: &mut String, ch: char)
    ensures
        final(s)@ == old(s)@.push(ch),
;

/// `String::pop` removes the last character of the string and returns it,
/// and returns `None` for the empty string, which it leaves as it is.
pub assume_specification[ String::pop ](s: &mut String) -> (last: Option<char>)
    ensures
        old(s)@.len() > 0 ==> last == Some(old(s)@.last()) && final(s)@ == old(s)@.drop_last(),
        old(s)@.len() == 0 ==> last is None && final(s)@ == old(s)@,
;

/// The control codes: the characters of the general category `Cc`, which
/// are U+0000 to U+001F and U+007F to U+009F.
pub open spec fn is_control_code(c: char) -> bool {
    c as u32 <= 0x1f || 0x7f <= c as u32 <= 0x9f
}

/// `char::is_control` tells whether the character is a control code.
pub assume_specification[ char::is_control ](c: char) -> (control: bool)
    ensures
        control == is_control_code(c),
;

} // verus!
