//! Byte encodings taken from outside crates: standard base64 and the
//! BLAKE3 digest.

use base64::Engine;
use vstd::prelude::*;

verus! {

/// `base64::DecodeError`, why a text is no base64: opaque to the
/// verifier.
#[verifier::external_type_specification]
#[verifier::external_body]
pub struct ExDecodeError(base64::DecodeError);

/// The standard base64 text (with padding) of a byte string.
pub uninterp spec fn base64_encoding(data: Seq<u8>) -> Seq<char>;

/// The bytes that a standard base64 text (with padding) stands for, if
/// it is well formed.
pub uninterp spec fn base64_decoding(text: Seq<char>) -> Option<Seq<u8>>;

/// The BLAKE3 digest of a byte string, in lower-case hexadecimal.
pub uninterp spec fn blake3_hex(data: Seq<u8>) -> Seq<char>;

/// Whether the base64 text of `len` bytes has a length that fits in
/// `usize`: four characters for every three bytes begun.
pub open spec fn encodable_len(len: nat) -> bool {
    (len / 3) * 4 + 4 <= usize::MAX
}

/// One of the sixteen lower-case hexadecimal digits.
pub open spec fn is_hex_digit(c: char) -> bool {
    '0' <= c <= '9' || 'a' <= c <= 'f'
}

/// Calls `encode` of `base64::engine::general_purpose::STANDARD`. The
/// engine panics where the length of the text would overflow `usize`.
#[verifier::external_body]
pub(crate) fn encode_base64(data: &[u8]) -> (r: String)
    requires
        encodable_len(data@.len()),
    ensures
        r@ == base64_encoding(data@),
{
    base64::engine::general_purpose::STANDARD.encode(data)
}

/// Calls `decode` of `base64::engine::general_purpose::STANDARD`.
#[verifier::external_body]
pub(crate) fn decode_base64(text: &str) -> (r: Result<Vec<u8>, base64::DecodeError>)
    ensures
        match r {
            Ok(data) => base64_decoding(text@) == Some(data@),
            Err(_) => base64_decoding(text@) is None,
        },
{
    base64::engine::general_purpose::STANDARD.decode(text)
}

/// Formats a base64 decoding error with `{}`.
#[verifier::external_body]
pub(crate) fn decode_error_text(e: &base64::DecodeError) -> (r: String) {
    format!("{}", e)
}

/// Calls `blake3::hash` and `Hash::to_hex`: the digest as sixty-four
/// lower-case hexadecimal digits.
#[verifier::external_body]
pub(crate) fn hash_hex(data: &[u8]) -> (r: String)
    ensures
        r@ == blake3_hex(data@),
        r@.len() == 64,
        forall|i: int| 0 <= i < 64 ==> is_hex_digit(#[trigger] r@[i]),
{
    blake3::hash(data).to_hex().to_string()
}

} // verus!
