//! Decoding of base64 export payloads.
//!
//! An export payload arrives as text in the standard base64 alphabet with
//! padding. Decoding is done by the `base64` crate's standard engine; its
//! result is named by the uninterpreted functions below, and
//! [`decode_export_content`] turns a rejected payload into the command
//! surface's decode-failure message.

use vstd::prelude::*;

use crate::messages::{
    decode_failure_message, decode_failure_prefix, decode_failure_text,
    lemma_decode_failure_starts_with_prefix, text_starts_with,
};

verus! {

/// A character of the standard base64 alphabet, or the padding character.
pub open spec fn is_base64_symbol(c: char) -> bool {
    ('A' <= c && c <= 'Z') || ('a' <= c && c <= 'z') || ('0' <= c && c <= '9') || c == '+' || c
        == '/' || c == '='
}

/// Every character of `s` is a base64 symbol or padding.
pub open spec fn all_base64_symbols(s: Seq<char>) -> bool {
    forall|i: int| 0 <= i < s.len() ==> #[trigger] is_base64_symbol(s[i])
}

/// What the standard padded base64 engine decodes `s` to: the decoded
/// bytes, or nothing where `s` is not a valid encoding.
pub uninterp spec fn base64_decoding(s: Seq<char>) -> Option<Seq<u8>>;

/// What the standard padded base64 engine encodes `b` to.
pub uninterp spec fn base64_encoding(b: Seq<u8>) -> Seq<char>;

/// Relies on the `base64` crate's `engine::general_purpose::STANDARD`:
/// decoding depends on the input characters alone; any character outside
/// the standard alphabet and padding is rejected as an invalid symbol; and
/// decoding inverts the same engine's encoding. The error text is the
/// crate's own description of the failure.
#[verifier::external_body]
fn decode_standard_base64(content: &str) -> (r: Result<Vec<u8>, String>)
    ensures
        r is Ok <==> base64_decoding(content@) is Some,
        r matches Ok(v) ==> base64_decoding(content@) == Some(v@),
        !all_base64_symbols(content@) ==> r is Err,
        r is Ok || (forall|b: Seq<u8>| content@ != base64_encoding(b)),
        r matches Ok(v) ==> forall|b: Seq<u8>| content@ == base64_encoding(b) ==> v@ == b,
{
    match base64::Engine::decode(&base64::engine::general_purpose::STANDARD, content) {
        Ok(v) => Ok(v),
        Err(e) => Err(format!("{}", e)),
    }
}

/// Decode a base64 export payload, or report why it was rejected.
///
/// The payload is accepted exactly where it is a valid encoding; a payload
/// holding any character outside the base64 alphabet is rejected; the
/// encoding of any byte sequence decodes back to exactly those bytes; and
/// every rejection's message starts with the decode-failure prefix.
pub fn decode_export_content(content: &str) -> (r: Result<Vec<u8>, String>)
    ensures
        r is Ok <==> base64_decoding(content@) is Some,
        r matches Ok(v) ==> base64_decoding(content@) == Some(v@),
        !all_base64_symbols(content@) ==> r is Err,
        forall|b: Seq<u8>| content@ == base64_encoding(b) ==> (r matches Ok(v) && v@ == b),
        r matches Err(m) ==> exists|cause: Seq<char>| m@ == decode_failure_text(cause),
        r matches Err(m) ==> text_starts_with(m@, decode_failure_prefix()),
{
    match decode_standard_base64(content) {
        Ok(v) => Ok(v),
        Err(cause) => {
            let m = decode_failure_message(cause.as_str());
            proof {
                lemma_decode_failure_starts_with_prefix(cause@);
            }
            Err(m)
        },
    }
}

} // verus!
