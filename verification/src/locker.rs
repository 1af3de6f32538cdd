//! The locker flow: put, get and delete of named lockers. The account
//! export key is the credential for an inner aPAKE exchange per locker; a
//! successful put seals the secret under the locker's own export key, and a
//! successful get unwraps two layers — the per-exchange session key against
//! observers, the locker export key against the server.

use vstd::prelude::*;
use vstd::string::StrSliceExecFns;
use vstd::string::StringExecFns;
use vstd::string::StringSliceAdditionalSpecFns;
use vstd::utf8::decode_utf8;
use vstd::utf8::valid_utf8;

use crate::aead::aead_cipher;
use crate::aead::aead_max_plaintext_len;
use crate::aead::aead_open;
use crate::aead::decrypt_locker;
use crate::aead::encrypt_locker;
use crate::codec::b64_decode;
use crate::codec::b64_encode;
use crate::codec::b64_of;
use crate::codec::b64_parse;
use crate::codec::string_from_utf8;
use crate::engine;
use crate::models::CliError;
use crate::models::DeleteLockerFinishRequest;
use crate::models::DeleteLockerResponse;
use crate::models::DeleteLockerStartRequest;
use crate::models::OpenLockerFinishRequest;
use crate::models::OpenLockerResponse;
use crate::models::OpenLockerStartRequest;
use crate::models::RegisterLockerFinishRequest;
use crate::models::RegisterLockerResponse;
use crate::models::RegisterLockerStartRequest;
use crate::util::str_eq;

verus! {

/// A locker exchange under way: the credential it is keyed on (the account
/// export key) and the engine state from the start step.
pub struct LockerFlow {
    pub key: Vec<u8>,
    pub state: Vec<u8>,
}

/// What a successful locker open derives: the per-exchange session key and
/// the locker's own export key.
pub struct LockerSession {
    pub session_key: Vec<u8>,
    pub export_key: Vec<u8>,
}

/// Start registering a locker: blind the account export key as the inner
/// credential.
pub fn register_locker_start(locker_id: &str, email: &str, key: &[u8]) -> (r: Result<
    (LockerFlow, RegisterLockerStartRequest),
    CliError,
>)
    ensures
        r matches Ok(p) ==> p.0.key@ == key@ && p.1.id@ == locker_id@ && p.1.e@ == email@,
        r matches Err(e) ==> (e matches CliError::Protocol(s) && s@
            == "Error with crypto::register_locker_start"@),
{
    let start = match engine::register_start(key) {
        Ok(s) => s,
        Err(_) => {
            return Err(
                CliError::Protocol(String::from_str("Error with crypto::register_locker_start")),
            );
        },
    };
    let request = RegisterLockerStartRequest {
        id: String::from_str(locker_id),
        e: String::from_str(email),
        i: b64_encode(start.message.as_slice()),
    };
    Ok((LockerFlow { key: vstd::slice::slice_to_vec(key), state: start.state }, request))
}

/// Whether a text is the base64 of a sealed envelope over the given secret:
/// under some sealing key, the envelope's tail is the AEAD ciphertext of
/// the secret for the envelope's own 12-byte nonce, and it opens back to
/// the secret. The envelope is 28 bytes longer than the secret, so its
/// decode is never the secret itself.
pub open spec fn seals_secret(c: Seq<char>, secret: Seq<u8>) -> bool {
    exists|key: Seq<u8>, sealed: Seq<u8>|
        b64_parse(c) == Some(sealed) && sealed.len() == secret.len() + 28 && sealed.skip(12)
            == #[trigger] aead_cipher(key, sealed.subrange(0, 12), secret) && aead_open(
            key,
            sealed.subrange(0, 12),
            sealed.skip(12),
        ) == Some(secret)
}

/// Finish registering a locker: derive the locker export key, seal the
/// secret under it, and build the finish request carrying the upload
/// message and the sealed secret: the ciphertext field is the base64 of a
/// sealed envelope over the secret, so the server never sees the secret or
/// a key that opens it.
pub fn register_locker_finish(
    flow: LockerFlow,
    response: &RegisterLockerResponse,
    locker_id: &str,
    email: &str,
    secret: &str,
) -> (r: Result<RegisterLockerFinishRequest, CliError>)
    requires
        secret.spec_bytes().len() < aead_max_plaintext_len(),
    ensures
        response.o@ == "unauthorized"@ ==> (r matches Err(e) && e is Unauthorized),
        r matches Ok(req) ==> req.id@ == locker_id@ && req.e@ == email@ && response.o@
            != "unauthorized"@ && b64_parse(response.o@) is Some,
        r matches Ok(req) ==> (b64_parse(req.c@) matches Some(sealed) && sealed.len()
            == secret.spec_bytes().len() + 28 && sealed != secret.spec_bytes()),
        r matches Ok(req) ==> seals_secret(req.c@, secret.spec_bytes()),
        (r matches Err(e) && e is Unauthorized) ==> response.o@ == "unauthorized"@,
        (r matches Err(e) && e is Parse) ==> b64_parse(response.o@) is None,
        r matches Err(e) ==> (e is Unauthorized || e is Parse || (e matches CliError::Protocol(s)
            && s@ == "Error with ClientRegistrationStartResult finish state"@)),
{
    if str_eq(response.o.as_str(), "unauthorized") {
        return Err(CliError::Unauthorized);
    }
    let response_bytes = match b64_decode(response.o.as_str()) {
        Some(b) => b,
        None => { return Err(CliError::Parse(String::from_str("Could not decode base64 str"))) },
    };
    let finished = match engine::register_finish(
        flow.key.as_slice(),
        flow.state.as_slice(),
        response_bytes.as_slice(),
    ) {
        Ok(f) => f,
        Err(_) => {
            return Err(
                CliError::Protocol(
                    String::from_str("Error with ClientRegistrationStartResult finish state"),
                ),
            );
        },
    };
    let sealed = encrypt_locker(finished.export_key.as_slice(), secret.as_bytes());
    let c = b64_encode(sealed.as_slice());
    proof {
        let k = finished.export_key@.subrange(0, 32);
        assert(sealed@.skip(12) == aead_cipher(k, sealed@.subrange(0, 12), secret.spec_bytes()));
        assert(seals_secret(c@, secret.spec_bytes()));
    }
    Ok(
        RegisterLockerFinishRequest {
            id: String::from_str(locker_id),
            e: String::from_str(email),
            i: b64_encode(finished.message.as_slice()),
            c,
        },
    )
}

/// Start opening (or deleting) a locker: blind the account export key and
/// open the inner key exchange.
pub fn open_locker_start(locker_id: &str, email: &str, key: &[u8]) -> (r: Result<
    (LockerFlow, OpenLockerStartRequest),
    CliError,
>)
    ensures
        r matches Ok(p) ==> p.0.key@ == key@ && p.1.id@ == locker_id@ && p.1.e@ == email@,
        r matches Err(e) ==> (e matches CliError::Protocol(s) && s@
            == "Error in opaque::open_locker_start"@),
{
    let start = match engine::login_start(key) {
        Ok(s) => s,
        Err(_) => {
            return Err(CliError::Protocol(String::from_str("Error in opaque::open_locker_start")));
        },
    };
    let request = OpenLockerStartRequest {
        id: String::from_str(locker_id),
        e: String::from_str(email),
        i: b64_encode(start.message.as_slice()),
    };
    Ok((LockerFlow { key: vstd::slice::slice_to_vec(key), state: start.state }, request))
}

/// Finish opening a locker: prove knowledge of the account export key and
/// derive the session key and the locker export key. A rejection here means
/// the credential did not match the locker's.
pub fn open_locker_finish(
    flow: LockerFlow,
    response: &OpenLockerResponse,
    locker_id: &str,
    email: &str,
) -> (r: Result<(LockerSession, OpenLockerFinishRequest), CliError>)
    ensures
        response.o@ == "unauthorized"@ ==> (r matches Err(e) && e is Unauthorized),
        r matches Ok(p) ==> p.1.id@ == locker_id@ && p.1.e@ == email@ && p.1.n == response.n
            && p.0.session_key@.len() == 64 && p.0.export_key@.len() == 64 && response.o@
            != "unauthorized"@ && b64_parse(response.o@) is Some,
        (r matches Err(e) && e is Unauthorized) ==> response.o@ == "unauthorized"@,
        (r matches Err(e) && e is Parse) ==> b64_parse(response.o@) is None,
        response.o@ != "unauthorized"@ && b64_parse(response.o@) is Some
            && engine::login_fin_of_text(flow.key@, flow.state@, response.o@) is None ==> (r
            matches Err(e) && (e matches CliError::Protocol(s) && s@
            == "Incorrect password, please try again."@)),
        engine::login_fin_of_text(flow.key@, flow.state@, response.o@) matches Some(out)
            && response.o@ != "unauthorized"@ ==> r is Ok,
        r matches Ok(p) ==> (engine::login_fin_of_text(flow.key@, flow.state@, response.o@)
            matches Some(out) && p.0.session_key@ == out.1 && p.0.export_key@ == out.2 && p.1.i@
            == b64_of(out.0)),
        r matches Err(e) ==> (e is Unauthorized || e is Parse || (e matches CliError::Protocol(s)
            && s@ == "Incorrect password, please try again."@)),
{
    if str_eq(response.o.as_str(), "unauthorized") {
        return Err(CliError::Unauthorized);
    }
    let response_bytes = match b64_decode(response.o.as_str()) {
        Some(b) => b,
        None => { return Err(CliError::Parse(String::from_str("Could not base64 decode!"))) },
    };
    let finished = match engine::login_finish(
        flow.key.as_slice(),
        flow.state.as_slice(),
        response_bytes.as_slice(),
    ) {
        Ok(f) => f,
        Err(_) => {
            return Err(
                CliError::Protocol(String::from_str("Incorrect password, please try again.")),
            );
        },
    };
    let request = OpenLockerFinishRequest {
        id: String::from_str(locker_id),
        e: String::from_str(email),
        i: b64_encode(finished.message.as_slice()),
        n: response.n,
    };
    let session = LockerSession {
        session_key: finished.session_key,
        export_key: finished.export_key,
    };
    Ok((session, request))
}

/// What unsealing the server's payload yields: strip the base64, open the
/// outer envelope with the session key, open the inner envelope with the
/// locker export key, and read the plaintext as UTF-8. Nothing, if any
/// layer refuses.
pub open spec fn unsealed_secret(session_key: Seq<u8>, export_key: Seq<u8>, o: Seq<char>) -> Option<
    Seq<char>,
> {
    match b64_parse(o) {
        Option::None => Option::None,
        Option::Some(outer) => if outer.len() < 12 {
            Option::None
        } else {
            match aead_open(session_key.subrange(0, 32), outer.subrange(0, 12), outer.skip(12)) {
                Option::None => Option::None,
                Option::Some(inner) => if inner.len() < 12 {
                    Option::None
                } else {
                    match aead_open(
                        export_key.subrange(0, 32),
                        inner.subrange(0, 12),
                        inner.skip(12),
                    ) {
                        Option::None => Option::None,
                        Option::Some(plaintext) => if valid_utf8(plaintext) {
                            Option::Some(decode_utf8(plaintext))
                        } else {
                            Option::None
                        },
                    }
                },
            }
        },
    }
}

/// Unseal the payload a locker open returned: the session key strips the
/// transit layer, the locker export key the storage layer. The caller has
/// already put the literal `unauthorized` aside.
pub fn unseal_payload(session: &LockerSession, o: &str) -> (r: Result<String, CliError>)
    requires
        session.session_key@.len() >= 32,
        session.export_key@.len() >= 32,
    ensures
        r matches Ok(s) ==> unsealed_secret(session.session_key@, session.export_key@, o@)
            == Some(s@),
        r is Err <==> unsealed_secret(session.session_key@, session.export_key@, o@) is None,
        r matches Err(e) ==> (e is Parse || (e matches CliError::Protocol(s)
            && s@ == "incorrect password or corrupt locker"@)),
{
    let outer = match b64_decode(o) {
        Some(b) => b,
        None => { return Err(CliError::Parse(String::from_str("Could not base64 decode!"))) },
    };
    if outer.len() < 12 {
        return Err(CliError::Protocol(String::from_str("incorrect password or corrupt locker")));
    }
    let inner = match decrypt_locker(session.session_key.as_slice(), outer.as_slice()) {
        Some(b) => b,
        None => {
            return Err(
                CliError::Protocol(String::from_str("incorrect password or corrupt locker")),
            );
        },
    };
    if inner.len() < 12 {
        return Err(CliError::Protocol(String::from_str("incorrect password or corrupt locker")));
    }
    let plaintext = match decrypt_locker(session.export_key.as_slice(), inner.as_slice()) {
        Some(b) => b,
        None => {
            return Err(
                CliError::Protocol(String::from_str("incorrect password or corrupt locker")),
            );
        },
    };
    match string_from_utf8(plaintext) {
        Some(s) => Ok(s),
        None => Err(CliError::Parse(String::from_str("UTF8 error"))),
    }
}

/// Unseal what the server returned for a locker open: the literal
/// `unauthorized` is an expired session; anything else is unsealed with
/// the two keys.
pub fn open_locker_unseal(session: &LockerSession, o: &str) -> (r: Result<String, CliError>)
    requires
        session.session_key@.len() >= 32,
        session.export_key@.len() >= 32,
    ensures
        o@ == "unauthorized"@ ==> (r matches Err(e) && e is Unauthorized),
        r matches Ok(s) ==> unsealed_secret(
            session.session_key@,
            session.export_key@,
            o@,
        ) == Some(s@) && o@ != "unauthorized"@,
        o@ != "unauthorized"@ ==> (r is Err <==> unsealed_secret(
            session.session_key@,
            session.export_key@,
            o@,
        ) is None),
        (r matches Err(e) && e is Unauthorized) ==> o@ == "unauthorized"@,
        r matches Err(e) ==> (e is Unauthorized || e is Parse || (e matches CliError::Protocol(s)
            && s@ == "incorrect password or corrupt locker"@)),
{
    if str_eq(o, "unauthorized") {
        return Err(CliError::Unauthorized);
    }
    unseal_payload(session, o)
}

/// Law: sealing a secret under the locker export key, wrapping it under
/// the session key, and shipping it as base64 — what a put stores and a
/// get receives — unseals to the same secret.
pub fn seal_unseal_round_trip(session: &LockerSession, secret: &str) -> (r: Result<
    String,
    CliError,
>)
    requires
        session.session_key@.len() >= 32,
        session.export_key@.len() >= 32,
        secret.spec_bytes().len() + 28 < aead_max_plaintext_len(),
    ensures
        r matches Ok(s) && s@ == secret@,
{
    let inner = encrypt_locker(session.export_key.as_slice(), secret.as_bytes());
    let outer = encrypt_locker(session.session_key.as_slice(), inner.as_slice());
    let o = b64_encode(outer.as_slice());
    proof {
        vstd::utf8::encode_utf8_valid_utf8(secret@);
        vstd::utf8::encode_utf8_decode_utf8(secret@);
    }
    unseal_payload(session, o.as_str())
}

/// Start deleting a locker: the same proof of ownership an open starts
/// with.
pub fn delete_locker_start(locker_id: &str, email: &str, key: &[u8]) -> (r: Result<
    (LockerFlow, DeleteLockerStartRequest),
    CliError,
>)
    ensures
        r matches Ok(p) ==> p.0.key@ == key@ && p.1.id@ == locker_id@ && p.1.e@ == email@,
        r matches Err(e) ==> (e matches CliError::Protocol(s) && s@
            == "Error in opaque::open_locker_start"@),
{
    let start = match engine::login_start(key) {
        Ok(s) => s,
        Err(_) => {
            return Err(CliError::Protocol(String::from_str("Error in opaque::open_locker_start")));
        },
    };
    let request = DeleteLockerStartRequest {
        id: String::from_str(locker_id),
        e: String::from_str(email),
        i: b64_encode(start.message.as_slice()),
    };
    Ok((LockerFlow { key: vstd::slice::slice_to_vec(key), state: start.state }, request))
}

/// Finish deleting a locker: complete the proof of ownership; no payload
/// comes back.
pub fn delete_locker_finish(
    flow: LockerFlow,
    response: &DeleteLockerResponse,
    locker_id: &str,
    email: &str,
) -> (r: Result<DeleteLockerFinishRequest, CliError>)
    ensures
        response.o@ == "unauthorized"@ ==> (r matches Err(e) && e is Unauthorized),
        r matches Ok(req) ==> req.id@ == locker_id@ && req.e@ == email@ && req.n == response.n
            && response.o@ != "unauthorized"@ && b64_parse(response.o@) is Some,
        (r matches Err(e) && e is Unauthorized) ==> response.o@ == "unauthorized"@,
        (r matches Err(e) && e is Parse) ==> b64_parse(response.o@) is None,
        response.o@ != "unauthorized"@ && b64_parse(response.o@) is Some
            && engine::login_fin_of_text(flow.key@, flow.state@, response.o@) is None ==> (r
            matches Err(e) && (e matches CliError::Protocol(s) && s@
            == "Incorrect password, please try again."@)),
        engine::login_fin_of_text(flow.key@, flow.state@, response.o@) matches Some(out)
            && response.o@ != "unauthorized"@ ==> r is Ok,
        r matches Ok(req) ==> (engine::login_fin_of_text(flow.key@, flow.state@, response.o@)
            matches Some(out) && req.i@ == b64_of(out.0)),
        r matches Err(e) ==> (e is Unauthorized || e is Parse || (e matches CliError::Protocol(s)
            && s@ == "Incorrect password, please try again."@)),
{
    if str_eq(response.o.as_str(), "unauthorized") {
        return Err(CliError::Unauthorized);
    }
    let response_bytes = match b64_decode(response.o.as_str()) {
        Some(b) => b,
        None => { return Err(CliError::Parse(String::from_str("Could not base64 decode!"))) },
    };
    let finished = match engine::login_finish(
        flow.key.as_slice(),
        flow.state.as_slice(),
        response_bytes.as_slice(),
    ) {
        Ok(f) => f,
        Err(_) => {
            return Err(
                CliError::Protocol(String::from_str("Incorrect password, please try again.")),
            );
        },
    };
    Ok(
        DeleteLockerFinishRequest {
            id: String::from_str(locker_id),
            e: String::from_str(email),
            i: b64_encode(finished.message.as_slice()),
            n: response.n,
        },
    )
}

} // verus!
