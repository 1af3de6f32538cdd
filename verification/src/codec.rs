//! Encodings at the edges of the protocol: base64 for binary blobs on the
//! wire and at rest, SHA-256 for the login challenge hash, the PKCE
//! verifier/challenge pair that binds the two registration rounds, and
//! UTF-8 for the email carried in the session file.

use vstd::prelude::*;

verus! {

/// The base64 text (standard alphabet, padded) that encoding a byte string
/// produces.
pub uninterp spec fn b64_of(bytes: Seq<u8>) -> Seq<char>;

/// What base64 decoding returns for a text: the bytes, or nothing when the
/// text is not valid base64.
pub uninterp spec fn b64_parse(text: Seq<char>) -> Option<Seq<u8>>;

/// The SHA-256 digest of a byte string.
pub uninterp spec fn sha256_of(bytes: Seq<u8>) -> Seq<u8>;

/// The PKCE code challenge derived from a code verifier: its SHA-256
/// digest, base64-url encoded without padding.
pub uninterp spec fn pkce_challenge_of(verifier: Seq<u8>) -> Seq<char>;

/// Relies on base64::encode: standard-alphabet, padded encoding, inverted
/// by base64::decode.
#[verifier::external_body]
pub fn b64_encode(bytes: &[u8]) -> (r: String)
    ensures
        r@ == b64_of(bytes@),
        b64_parse(r@) == Some(bytes@),
{
    base64::encode(bytes)
}

/// Relies on base64::decode: decoding a given text is a function; it fails
/// exactly on text that is not valid base64. Four characters decode to
/// three bytes, so the output is never longer than the input.
#[verifier::external_body]
pub fn b64_decode(text: &str) -> (r: Option<Vec<u8>>)
    ensures
        match r {
            Some(b) => b64_parse(text@) == Some(b@) && b@.len() <= text@.len(),
            None => b64_parse(text@) is None,
        },
{
    base64::decode(text).ok()
}

/// Relies on sha2::Sha256 (the digest::Digest::digest method): the 32-byte
/// SHA-256 digest.
#[verifier::external_body]
pub fn sha256(bytes: &[u8]) -> (r: Vec<u8>)
    ensures
        r@ == sha256_of(bytes@),
        r@.len() == 32,
{
    <sha2::Sha256 as sha2::Digest>::digest(bytes).to_vec()
}

/// Relies on pkce::code_verifier: draws the asked-for number of random
/// bytes from the verifier alphabet; it panics outside 43..=128.
#[verifier::external_body]
pub fn pkce_verifier(len: usize) -> (r: Vec<u8>)
    requires
        43 <= len <= 128,
    ensures
        r@.len() == len,
{
    pkce::code_verifier(len)
}

/// Relies on pkce::code_challenge: the challenge depends on the verifier
/// bytes alone.
#[verifier::external_body]
pub fn pkce_challenge(verifier: &[u8]) -> (r: String)
    ensures
        r@ == pkce_challenge_of(verifier@),
{
    pkce::code_challenge(verifier)
}

/// Relies on alloc::string::String::from_utf8: returns the string holding
/// exactly the given bytes when they are valid UTF-8, and fails otherwise.
#[verifier::external_body]
pub fn string_from_utf8(bytes: Vec<u8>) -> (r: Option<String>)
    ensures
        match r {
            Some(s) => vstd::utf8::valid_utf8(bytes@) && vstd::utf8::encode_utf8(s@) == bytes@
                && s@ == vstd::utf8::decode_utf8(bytes@),
            None => !vstd::utf8::valid_utf8(bytes@),
        },
{
    String::from_utf8(bytes).ok()
}

} // verus!
