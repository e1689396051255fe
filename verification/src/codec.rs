//! Trusted boundary to the encoding crates: base64, URL-form encoding and
//! UTF-8 decoding. Each wrapper makes exactly one outside call; what the
//! call returns is either stated exactly (UTF-8, via vstd's model) or given
//! a name, since it is a function of the arguments alone.

use vstd::prelude::*;
use vstd::utf8::{decode_utf8, valid_utf8};

verus! {

/// The standard, padded base64 encoding of a byte sequence.
pub uninterp spec fn base64_standard_encoding(bytes: Seq<u8>) -> Seq<char>;

/// Relies on base64's `general_purpose::STANDARD` engine: the encoding of a
/// byte sequence depends on those bytes alone and always succeeds.
#[verifier::external_body]
pub fn base64_encode_standard(bytes: &[u8]) -> (r: String)
    ensures
        r@ == base64_standard_encoding(bytes@),
{
    base64::engine::Engine::encode(&base64::engine::general_purpose::STANDARD, bytes)
}

/// What URL-safe, unpadded base64 decoding makes of a character sequence:
/// the decoded bytes, or nothing when the input is not valid base64.
pub uninterp spec fn base64_url_safe_decoding(s: Seq<char>) -> Option<Seq<u8>>;

/// Relies on base64's `general_purpose::URL_SAFE_NO_PAD` engine: whether the
/// input decodes, and to which bytes, depends on its characters alone.
#[verifier::external_body]
pub fn base64_decode_url_safe(s: &str) -> (r: Option<Vec<u8>>)
    ensures
        r is Some <==> base64_url_safe_decoding(s@) is Some,
        r is Some ==> r->Some_0@ == base64_url_safe_decoding(s@)->Some_0,
{
    base64::engine::Engine::decode(&base64::engine::general_purpose::URL_SAFE_NO_PAD, s).ok()
}

/// The `application/x-www-form-urlencoded` rendering of the single pair
/// `("token", token)`.
pub uninterp spec fn form_encoded_token(token: Seq<char>) -> Seq<char>;

/// Relies on `serde_urlencoded::to_string` applied to the single pair
/// `("token", token)`: the rendering depends on the token characters alone,
/// and serializing one pair of strings cannot fail — the pair serializer
/// accepts two-tuples and string parts serialize without error.
#[verifier::external_body]
pub fn form_encode_token(token: &str) -> (r: String)
    ensures
        r@ == form_encoded_token(token@),
{
    serde_urlencoded::to_string([("token", token)])
        .expect("a single pair of strings serializes without error")
}

/// Relies on `String::from_utf8`, whose documentation promises the result
/// exists exactly when the bytes are valid UTF-8 and then spells those very
/// bytes; stated with vstd's UTF-8 model.
#[verifier::external_body]
pub fn string_from_utf8(bytes: &[u8]) -> (r: Option<String>)
    ensures
        r is Some <==> valid_utf8(bytes@),
        r is Some ==> r->Some_0@ == decode_utf8(bytes@),
{
    String::from_utf8(bytes.to_vec()).ok()
}

} // verus!
