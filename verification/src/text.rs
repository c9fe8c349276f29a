//! Trusted bridges to the standard library's text operations that vstd does
//! not specify: UTF-8 decoding of captured process output, and appending a
//! character to a `String`.

use vstd::prelude::*;

verus! {

/// Relies on `String::from_utf8`: returns the decoded text exactly when the
/// bytes are a valid UTF-8 encoding, and hands the offending bytes back
/// unchanged otherwise.
#[verifier::external_body]
pub fn decode_text(bytes: Vec<u8>) -> (r: Result<String, Vec<u8>>)
    ensures
        r is Ok <==> vstd::utf8::valid_utf8(bytes@),
        r matches Ok(s) ==> s@ == vstd::utf8::decode_utf8(bytes@),
        r matches Err(b) ==> b@ == bytes@,
{
    String::from_utf8(bytes).map_err(|error| error.into_bytes())
}

/// Relies on `String::push`: appends the given character to the end of the
/// string.
#[verifier::external_body]
pub fn push_char(s: &mut String, c: char)
    ensures
        final(s)@ == old(s)@.push(c),
{
    s.push(c)
}

} // verus!
