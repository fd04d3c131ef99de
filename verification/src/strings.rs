//! What this library takes on trust about the standard library's strings and
//! characters, where `vstd` is silent.

use vstd::prelude::*;

verus! {

/// `String::push`: believed to append exactly the given character to the
/// string.
pub assume_specification[ String::push ](s: &mut String, ch: char)
    ensures
        final(s)@ == old(s)@.push(ch),
;

/// `String::pop`: believed to take the last character off the string and
/// return it, and to return `None` and change nothing where the string is
/// empty.
pub assume_specification[ String::pop ](s: &mut String) -> (last: Option<char>)
    ensures
        old(s)@.len() == 0 ==> last is None && final(s)@ == old(s)@,
        old(s)@.len() > 0 ==> last == Some(old(s)@.last()) && final(s)@ == old(s)@.drop_last(),
;

/// `String::clear`: believed to leave the string empty.
pub assume_specification[ String::clear ](s: &mut String)
    ensures
        final(s)@ == Seq::<char>::empty(),
;

/// `char::from_u32`: believed to return the character with code point `i`,
/// and `None` exactly where `i` is a surrogate or lies beyond U+10FFFF.
pub assume_specification[ char::from_u32 ](i: u32) -> (c: Option<char>)
    ensures
        c == (if i <= 0xD7FF || 0xE000 <= i <= 0x10FFFF {
            Some(i as char)
        } else {
            None
        }),
;

/// Whether `c` is a control code, as `char::is_control` tells.
pub uninterp spec fn control_code(c: char) -> bool;

/// Whether `c` is white space, as `char::is_whitespace` tells.
pub uninterp spec fn white_space(c: char) -> bool;

/// `char::is_control`: its answer is given the name `control_code`.
pub assume_specification[ char::is_control ](c: char) -> (b: bool)
    ensures
        b == control_code(c),
;

/// `char::is_whitespace`: its answer is given the name `white_space`.
pub assume_specification[ char::is_whitespace ](c: char) -> (b: bool)
    ensures
        b == white_space(c),
;

} // verus!
