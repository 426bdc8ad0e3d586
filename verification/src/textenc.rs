//! Decoding the process's output streams as UTF-8 text.
//!
//! Standard output is decoded strictly: invalid bytes are a terminal
//! failure and nothing partial is kept.  Standard error is decoded
//! permissively, so that a diagnostic is never lost to a secondary
//! failure.

use vstd::prelude::*;
use vstd::utf8::decode_utf8;
use vstd::utf8::valid_utf8;

verus! {

/// What permissive decoding yields on `bytes`: the text with every
/// invalid sequence replaced.  It depends on the bytes alone.
pub uninterp spec fn lossy_decode(bytes: Seq<u8>) -> Seq<char>;

#[verifier::external_type_specification]
#[verifier::external_body]
pub struct ExFromUtf8Error(std::string::FromUtf8Error);

/// Relies on `String::from_utf8`: it succeeds exactly on valid UTF-8
/// and yields its decoding.
#[verifier::external_body]
pub(crate) fn utf8_decode(bytes: Vec<u8>) -> (r: Result<String, std::string::FromUtf8Error>)
    ensures
        r is Ok <==> valid_utf8(bytes@),
        r matches Ok(t) ==> t@ == decode_utf8(bytes@),
{
    String::from_utf8(bytes)
}

/// Relies on `FromUtf8Error`'s display text for the error message.
#[verifier::external_body]
pub(crate) fn utf8_error_text(e: &std::string::FromUtf8Error) -> (r: String) {
    e.to_string()
}

/// Relies on `String::from_utf8_lossy`: the replacement of invalid
/// sequences depends on the bytes alone, and valid UTF-8 is decoded
/// unchanged.
#[verifier::external_body]
pub(crate) fn utf8_decode_lossy(bytes: &Vec<u8>) -> (r: String)
    ensures
        r@ == lossy_decode(bytes@),
        valid_utf8(bytes@) ==> r@ == decode_utf8(bytes@),
{
    String::from_utf8_lossy(bytes).into_owned()
}

} // verus!
