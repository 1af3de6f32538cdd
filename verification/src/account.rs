//! The account flow: registration and login, each a linear exchange whose
//! state from one round is the sole input (with the server's response) to
//! the next. These functions do the deciding and the deriving; the caller
//! ships the requests they build and feeds the responses back.

use vstd::prelude::*;
use vstd::string::StrSliceExecFns;
use vstd::string::StringExecFns;
use vstd::string::StringSliceAdditionalSpecFns;

use crate::aead::aead_cipher;
use crate::aead::aead_max_plaintext_len;
use crate::aead::encrypt_bytes_with_u32_nonce;
use crate::codec::b64_decode;
use crate::codec::b64_encode;
use crate::codec::b64_of;
use crate::codec::b64_parse;
use crate::codec::pkce_challenge;
use crate::codec::pkce_challenge_of;
use crate::codec::pkce_verifier;
use crate::codec::sha256;
use crate::codec::sha256_of;
use crate::engine;
use crate::models::CliError;
use crate::models::LoginFinishRequest;
use crate::models::LoginResponse;
use crate::models::LoginStartRequest;
use crate::models::LoginVerifyRequest;
use crate::models::RegisterFinishRequest;
use crate::models::RegisterResponse;
use crate::models::RegisterStartRequest;
use crate::nonce::be_bytes_of_u32;
use crate::nonce::expanded_nonce_of;
use crate::nonce::u32_to_be_vec;
use crate::store::check_server_key_pin;
use crate::store::pin_admits;
use crate::store::PinCheck;
use crate::util::str_eq;

verus! {

/// How many random bytes the PKCE code verifier holds.
pub const PKCE_VERIFIER_LEN: usize = 128;

/// A registration under way: what the start step derived and the finish
/// step consumes.
pub struct RegistrationFlow {
    /// The account identifier, repeated in both rounds.
    pub email: String,
    /// The credential the exchange is keyed on.
    pub password: Vec<u8>,
    /// The engine state from the start step.
    pub state: Vec<u8>,
    /// The PKCE code verifier whose challenge the start request committed
    /// to; its base64 is disclosed in the finish request.
    pub verifier: Vec<u8>,
}

/// What a finished registration leaves the client: the export key, and the
/// server's static public key to pin.
pub struct RegisteredAccount {
    pub export_key: Vec<u8>,
    pub server_s_pk: Vec<u8>,
}

/// Start a registration: blind the password and commit to a fresh PKCE
/// verifier. The request discloses only the challenge; the flow keeps the
/// verifier.
pub fn registration_start(email: &str, password: &str) -> (r: Result<
    (RegistrationFlow, RegisterStartRequest),
    CliError,
>)
    ensures
        r matches Ok(p) ==> p.0.email@ == email@ && p.0.password@ == password.spec_bytes()
            && p.0.verifier@.len() == PKCE_VERIFIER_LEN && p.1.e@ == email@ && p.1.c@
            == pkce_challenge_of(p.0.verifier@),
        r matches Err(e) ==> (e matches CliError::Protocol(s) && s@
            == "account registration error"@),
{
    let start = match engine::register_start(password.as_bytes()) {
        Ok(s) => s,
        Err(_) => {
            return Err(CliError::Protocol(String::from_str("account registration error")));
        },
    };
    let verifier = pkce_verifier(PKCE_VERIFIER_LEN);
    let challenge = pkce_challenge(verifier.as_slice());
    let request = RegisterStartRequest {
        e: String::from_str(email),
        i: b64_encode(start.message.as_slice()),
        c: challenge,
    };
    let flow = RegistrationFlow {
        email: String::from_str(email),
        password: password.as_bytes_vec(),
        state: start.state,
        verifier,
    };
    Ok((flow, request))
}

/// Finish a registration: unblind the server's response, derive the export
/// key, and build the finish request, which repeats the server's id and
/// discloses the verifier committed to at the start.
pub fn registration_finish(flow: RegistrationFlow, response: &RegisterResponse) -> (r: Result<
    (RegisteredAccount, RegisterFinishRequest),
    CliError,
>)
    ensures
        b64_parse(response.o@) is None ==> (r matches Err(e) && (e matches CliError::Parse(s)
            && s@ == "Could not decode base64 str"@)),
        r matches Ok(p) ==> p.1.id == response.id && p.1.e@ == flow.email@ && p.1.v@ == b64_of(
            flow.verifier@,
        ) && p.0.export_key@.len() == 64 && p.0.server_s_pk@.len() == 32,
        (r matches Err(e) && e is Parse) ==> b64_parse(response.o@) is None,
        r is Err ==> (r matches Err(e) && (e is Parse || (e matches CliError::Protocol(s) && s@
            == "account register finish error"@))),
{
    let response_bytes = match b64_decode(response.o.as_str()) {
        Some(b) => b,
        None => { return Err(CliError::Parse(String::from_str("Could not decode base64 str"))) },
    };
    let finished = match engine::register_finish(
        flow.password.as_slice(),
        flow.state.as_slice(),
        response_bytes.as_slice(),
    ) {
        Ok(f) => f,
        Err(_) => {
            return Err(CliError::Protocol(String::from_str("account register finish error")));
        },
    };
    let request = RegisterFinishRequest {
        id: response.id,
        e: flow.email,
        i: b64_encode(finished.message.as_slice()),
        v: b64_encode(flow.verifier.as_slice()),
    };
    let account = RegisteredAccount {
        export_key: finished.export_key,
        server_s_pk: finished.server_s_pk,
    };
    Ok((account, request))
}

/// A login under way: what the start step derived and the finish step
/// consumes.
pub struct LoginFlow {
    /// The account identifier, repeated in both rounds.
    pub email: String,
    /// The credential the exchange is keyed on.
    pub password: Vec<u8>,
    /// The engine state from the start step.
    pub state: Vec<u8>,
}

/// What a successful login finish leaves the client before the
/// challenge-response: the fresh session key, the export key, and the
/// server public key that passed the pin check.
pub struct LoginSession {
    pub session_key: Vec<u8>,
    pub export_key: Vec<u8>,
    pub server_s_pk: Vec<u8>,
}

/// The view of an optional pinned key.
pub open spec fn pinned_view(pinned: Option<&Vec<u8>>) -> Option<Seq<u8>> {
    match pinned {
        None => None,
        Some(p) => Some(p@),
    }
}

/// Start a login: blind the password and open the key exchange.
pub fn login_start(email: &str, password: &str) -> (r: Result<
    (LoginFlow, LoginStartRequest),
    CliError,
>)
    ensures
        r matches Ok(p) ==> p.0.email@ == email@ && p.0.password@ == password.spec_bytes() && p.1.e@
            == email@,
        r matches Err(e) ==> (e matches CliError::Protocol(s) && s@
            == "account login start error"@),
{
    let start = match engine::login_start(password.as_bytes()) {
        Ok(s) => s,
        Err(_) => {
            return Err(CliError::Protocol(String::from_str("account login start error")));
        },
    };
    let request = LoginStartRequest {
        e: String::from_str(email),
        i: b64_encode(start.message.as_slice()),
    };
    let flow = LoginFlow {
        email: String::from_str(email),
        password: password.as_bytes_vec(),
        state: start.state,
    };
    Ok((flow, request))
}

/// Finish a login: unblind the server's response, derive the session and
/// export keys, and hold the derived server public key against the pinned
/// one. A login never succeeds against a pinned key it does not match, and
/// it asks to store the key exactly on first contact.
pub fn login_finish(flow: LoginFlow, response: &LoginResponse, pinned: Option<&Vec<u8>>) -> (r:
    Result<(LoginSession, LoginFinishRequest, PinCheck), CliError>)
    ensures
        b64_parse(response.o@) is None ==> (r matches Err(e) && (e matches CliError::Parse(s)
            && s@ == "Could not decode base64 str"@)),
        r matches Ok(p) ==> p.1.id == response.id && p.1.e@ == flow.email@
            && p.0.session_key@.len() == 64 && p.0.export_key@.len() == 64
            && p.0.server_s_pk@.len() == 32,
        r matches Ok(p) ==> pin_admits(pinned_view(pinned), p.0.server_s_pk@),
        r matches Ok(p) ==> ((p.2 is Store <==> pinned is None) && (p.2 is Match
            <==> (pinned matches Some(q) && q@ == p.0.server_s_pk@)) && !(p.2 is Mismatch)),
        b64_parse(response.o@) is Some && engine::login_fin_of_text(
            flow.password@,
            flow.state@,
            response.o@,
        ) is None ==> (r matches Err(e) && (e matches CliError::Protocol(s) && s@
            == "account login finish error"@)),
        engine::login_fin_of_text(flow.password@, flow.state@, response.o@) matches Some(out)
            && pinned_view(pinned) is Some && pinned_view(pinned)->Some_0 != out.3 ==> (r matches
            Err(e) && e is KeyPinMismatch),
        engine::login_fin_of_text(flow.password@, flow.state@, response.o@) matches Some(out)
            && pin_admits(pinned_view(pinned), out.3) ==> r is Ok,
        r matches Ok(t) ==> (engine::login_fin_of_text(
            flow.password@,
            flow.state@,
            response.o@,
        ) matches Some(out) && t.0.session_key@ == out.1 && t.0.export_key@ == out.2
            && t.0.server_s_pk@ == out.3 && t.1.i@ == b64_of(out.0)),
        (r matches Err(e) && e is Parse) ==> b64_parse(response.o@) is None,
        (r matches Err(e) && e is KeyPinMismatch) ==> pinned is Some,
        r is Err ==> (r matches Err(e) && (e is Parse || e is KeyPinMismatch || (e matches
            CliError::Protocol(s) && s@ == "account login finish error"@))),
{
    let response_bytes = match b64_decode(response.o.as_str()) {
        Some(b) => b,
        None => { return Err(CliError::Parse(String::from_str("Could not decode base64 str"))) },
    };
    let finished = match engine::login_finish(
        flow.password.as_slice(),
        flow.state.as_slice(),
        response_bytes.as_slice(),
    ) {
        Ok(f) => f,
        Err(_) => {
            return Err(CliError::Protocol(String::from_str("account login finish error")));
        },
    };
    let pin = check_server_key_pin(pinned, finished.server_s_pk.as_slice());
    if let PinCheck::Mismatch = pin {
        return Err(CliError::KeyPinMismatch);
    }
    let request = LoginFinishRequest {
        id: response.id,
        e: flow.email,
        i: b64_encode(finished.message.as_slice()),
    };
    let session = LoginSession {
        session_key: finished.session_key,
        export_key: finished.export_key,
        server_s_pk: finished.server_s_pk,
    };
    Ok((session, request, pin))
}

/// The challenge answer's text: the random challenge encrypted under the
/// session key with the nonce expanded from the login id, hashed with
/// SHA-256, base64-encoded.
pub open spec fn challenge_answer_of(login_id: u32, session_key: Seq<u8>, challenge: Seq<u8>) -> Seq<
    char,
> {
    b64_of(sha256_of(aead_cipher(session_key.subrange(0, 32), expanded_nonce_of(login_id), challenge)))
}

/// Answer the server's login challenge. The literal `Failed` in place of a
/// challenge is the server aborting the login; anything else must be the
/// base64 of the random challenge, which is answered by proving knowledge
/// of the session key without revealing it.
pub fn login_challenge_answer(login_id: u32, session_key: &[u8], o: &str) -> (r: Result<
    LoginVerifyRequest,
    CliError,
>)
    requires
        session_key@.len() >= 32,
        o@.len() < aead_max_plaintext_len(),
    ensures
        o@ == "Failed"@ ==> (r matches Err(e) && (e matches CliError::Protocol(s) && s@
            == "login_finish error"@)),
        o@ != "Failed"@ && b64_parse(o@) is None ==> (r matches Err(e) && (e matches
            CliError::Parse(s) && s@ == "Could not base64 decode rand_challenge"@)),
        o@ != "Failed"@ && b64_parse(o@) is Some ==> (r matches Ok(req) && req.id == login_id
            && req.i@ == challenge_answer_of(login_id, session_key@, b64_parse(o@)->Some_0)),
{
    if str_eq(o, "Failed") {
        return Err(CliError::Protocol(String::from_str("login_finish error")));
    }
    let challenge = match b64_decode(o) {
        Some(b) => b,
        None => {
            return Err(
                CliError::Parse(String::from_str("Could not base64 decode rand_challenge")),
            );
        },
    };
    let ciphertext = encrypt_bytes_with_u32_nonce(&login_id, session_key, challenge.as_slice());
    let hash = sha256(ciphertext.as_slice());
    Ok(LoginVerifyRequest { id: login_id, i: b64_encode(hash.as_slice()) })
}

/// The session token: the login id's own bytes encrypted under the session
/// key with the nonce expanded from that id. The server decrypts it with
/// the symmetric key it retained; to anyone else it is opaque.
pub open spec fn session_token_of(login_id: u32, session_key: Seq<u8>) -> Seq<u8> {
    aead_cipher(
        session_key.subrange(0, 32),
        expanded_nonce_of(login_id),
        be_bytes_of_u32(login_id),
    )
}

/// Manufacture the bearer session token for this login: 4 encrypted id
/// bytes and the 16-byte tag, 20 bytes in all, the fixed prefix the
/// session file is split at.
pub fn make_session_token(login_id: u32, session_key: &[u8]) -> (r: Vec<u8>)
    requires
        session_key@.len() >= 32,
    ensures
        r@ == session_token_of(login_id, session_key@),
        r@.len() == 20,
{
    let id_bytes = u32_to_be_vec(login_id);
    encrypt_bytes_with_u32_nonce(&login_id, session_key, id_bytes.as_slice())
}

/// Read the server's verdict on the challenge answer: only the literal
/// `Success` completes the login.
pub fn login_verify_outcome(o: &str) -> (r: Result<(), CliError>)
    ensures
        o@ == "Success"@ <==> r is Ok,
        r matches Err(e) ==> (e matches CliError::Protocol(s) && s@ == "login_verify error"@),
{
    if str_eq(o, "Success") {
        Ok(())
    } else {
        Err(CliError::Protocol(String::from_str("login_verify error")))
    }
}

} // verus!
