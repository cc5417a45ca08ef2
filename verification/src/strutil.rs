//! Small executable helpers over `String` and `char` that vstd does not
//! provide directly.

use vstd::prelude::*;

verus! {

/// Relies on std's `String::push`: appends one character at the end.
#[verifier::external_body]
pub fn push_char(s: &mut String, c: char)
    ensures
        final(s)@ == old(s)@ + seq![c],
{
    s.push(c);
}

/// Relies on std's `char::from_u32`: `Some` exactly for Unicode scalar
/// values (not a surrogate, at most 0x10FFFF), and the character returned
/// has the given code point.
#[verifier::external_body]
pub fn char_from_u32(v: u32) -> (r: Option<char>)
    ensures
        r is Some <==> (v < 0xD800 || (0xE000 <= v && v <= 0x10FFFF)),
        r matches Some(c) ==> c as u32 == v,
{
    char::from_u32(v)
}

} // verus!
