//! The secure store's data: what the session file holds and how the pinned
//! server key is checked. The files themselves are read and written outside
//! the library; these functions compute the bytes that go in and interpret
//! the bytes that come out.
//!
//! The session file holds `token || email_utf8`, base64-encoded at rest;
//! the token occupies a fixed 20-byte prefix (a 4-byte id and a 16-byte
//! AEAD tag).

use vstd::prelude::*;
use vstd::slice::slice_subrange;
use vstd::string::StringSliceAdditionalSpecFns;
use vstd::slice::slice_to_vec;

use crate::codec::b64_of;
use crate::codec::b64_encode;
use crate::codec::string_from_utf8;
use crate::models::CliError;
use crate::util::bytes_eq;

verus! {

/// The length of the session token at the head of the session file.
pub const SESSION_ID_LEN: usize = 20;

/// The bytes of the session file: the token, then the email in UTF-8.
pub fn session_file_payload(session_id: &[u8], email: &str) -> (r: Vec<u8>)
    ensures
        r@ == session_id@ + email.spec_bytes(),
{
    let mut r = slice_to_vec(session_id);
    let mut rest = slice_to_vec(email.as_bytes());
    r.append(&mut rest);
    r
}

/// Split the session file back into the base64 of its 20-byte token and
/// the email. Fails on a file too short to hold a token or whose tail is
/// not UTF-8.
pub fn split_session_payload(bytes: &[u8]) -> (r: Option<(String, String)>)
    ensures
        match r {
            Some(p) => bytes@.len() >= SESSION_ID_LEN && p.0@ == b64_of(
                bytes@.subrange(0, SESSION_ID_LEN as int),
            ) && vstd::utf8::valid_utf8(bytes@.skip(SESSION_ID_LEN as int)) && p.1@
                == vstd::utf8::decode_utf8(bytes@.skip(SESSION_ID_LEN as int)),
            None => bytes@.len() < SESSION_ID_LEN || !vstd::utf8::valid_utf8(
                bytes@.skip(SESSION_ID_LEN as int),
            ),
        },
{
    if bytes.len() < SESSION_ID_LEN {
        return None;
    }
    let token = slice_subrange(bytes, 0, SESSION_ID_LEN);
    let tail = slice_subrange(bytes, SESSION_ID_LEN, bytes.len());
    proof {
        assert(tail@ =~= bytes@.skip(SESSION_ID_LEN as int));
    }
    let email = string_from_utf8(slice_to_vec(tail))?;
    Some((b64_encode(token), email))
}

/// Rebuilding a session file from a 20-byte token and an email and
/// splitting it again yields the token's base64 and the same email.
pub fn session_payload_round_trip(session_id: &[u8], email: &str) -> (r: Option<(String, String)>)
    requires
        session_id@.len() == SESSION_ID_LEN,
    ensures
        r matches Some(p) && p.0@ == b64_of(session_id@) && p.1@ == email@,
{
    let payload = session_file_payload(session_id, email);
    let r = split_session_payload(payload.as_slice());
    proof {
        assert(payload@.subrange(0, SESSION_ID_LEN as int) =~= session_id@);
        assert(payload@.skip(SESSION_ID_LEN as int) =~= email.spec_bytes());
        vstd::utf8::encode_utf8_valid_utf8(email@);
        vstd::utf8::encode_utf8_decode_utf8(email@);
    }
    r
}

/// What the trust-on-first-use check decides about the server's static
/// public key.
#[derive(Debug, Clone)]
pub enum PinCheck {
    /// No key is pinned yet: store the derived one and continue.
    Store,
    /// The pinned key equals the derived one: continue.
    Match,
    /// The pinned key differs: abort, a man in the middle is suspected.
    Mismatch,
}

/// Compare the server public key the login derived against the pinned one,
/// if any. Once a key is pinned, only the same key passes; with none
/// pinned, the derived key is to be stored (trust on first use).
pub fn check_server_key_pin(pinned: Option<&Vec<u8>>, derived: &[u8]) -> (r: PinCheck)
    ensures
        match r {
            PinCheck::Store => pinned is None,
            PinCheck::Match => pinned matches Some(p) && p@ == derived@,
            PinCheck::Mismatch => pinned matches Some(p) && p@ != derived@,
        },
{
    match pinned {
        None => PinCheck::Store,
        Some(p) => {
            if bytes_eq(p.as_slice(), derived) {
                PinCheck::Match
            } else {
                PinCheck::Mismatch
            }
        },
    }
}

/// Whether a login deriving this server key may proceed against this
/// pinned key: always on first use, afterwards only for the pinned key
/// itself.
pub open spec fn pin_admits(pinned: Option<Seq<u8>>, derived: Seq<u8>) -> bool {
    match pinned {
        None => true,
        Some(p) => p == derived,
    }
}

} // verus!
