//! What the standard library does to strings where the logic needs it. The
//! contracts here restate its documentation; nothing proves them.

use vstd::prelude::*;
use vstd::utf8::{encode_utf8, valid_utf8};

verus! {

/// Appends `c` to `s`: `String::push` of the standard library. Believed, not
/// proved: the string afterwards is the string before with `c` at its end.
#[verifier::external_body]
pub(crate) fn push_char(s: &mut String, c: char)
    ensures
        final(s)@ == old(s)@.push(c),
{
    s.push(c);
}

/// Reads bytes as UTF-8: `String::from_utf8` of the standard library.
/// Believed, not proved: bytes that are well-formed UTF-8 are never turned
/// down, and the string that comes back is made of the very bytes that
/// went in.
#[verifier::external_body]
pub(crate) fn string_from_utf8(bytes: Vec<u8>) -> (text: Option<String>)
    ensures
        valid_utf8(bytes@) ==> text is Some,
        text matches Some(s) ==> encode_utf8(s@) == bytes@,
{
    match String::from_utf8(bytes) {
        Ok(s) => Some(s),
        Err(_) => None,
    }
}

} // verus!
