//! The aPAKE engine: a thin trusted boundary around the OPAQUE client role.
//!
//! Every multi-round operation is split into a start and a finish. A start
//! hands back an opaque state and a wire message, both as plain byte
//! strings; the caller carries the state to the matching finish together
//! with the server's response bytes. The engine is keyed on arbitrary
//! credential bytes, so the same four entry points serve both the account
//! flow (keyed on the password) and the locker flow (keyed on the account
//! export key).

use vstd::prelude::*;

use crate::codec::b64_parse;

verus! {

#[verifier::external_type_specification]
#[verifier::external_body]
pub struct ExRistretto255(opaque_ke::Ristretto255);

#[verifier::external_type_specification]
#[verifier::external_body]
pub struct ExTripleDh(opaque_ke::key_exchange::tripledh::TripleDh);

#[verifier::external_type_specification]
#[verifier::external_body]
pub struct ExIdentity(opaque_ke::ksf::Identity);

#[verifier::external_type_specification]
#[verifier::external_body]
#[verifier::reject_recursive_types(T)]
pub struct ExProtocolError<T>(opaque_ke::errors::ProtocolError<T>);

/// The OPAQUE ciphersuite this client speaks: Ristretto255 as the group,
/// Triple-DH as the key exchange, and an identity key-stretching function
/// (its hash, and so the size of derived keys, is SHA-512).
pub struct DefaultCipherSuite;

impl opaque_ke::CipherSuite for DefaultCipherSuite {
    type OprfCs = opaque_ke::Ristretto255;
    type KeGroup = opaque_ke::Ristretto255;
    type KeyExchange = opaque_ke::key_exchange::tripledh::TripleDh;
    type Ksf = opaque_ke::ksf::Identity;
}

/// A start step's output: the engine state to carry to the matching finish,
/// and the message to ship to the server, both serialized.
pub struct StartOut {
    pub state: Vec<u8>,
    pub message: Vec<u8>,
}

/// A finished registration: the upload message for the server, the
/// password-derived export key that never leaves the client, and the
/// server's static public key.
pub struct RegisterFinishOut {
    pub message: Vec<u8>,
    pub export_key: Vec<u8>,
    pub server_s_pk: Vec<u8>,
}

/// A finished login: the finalization message for the server, the fresh
/// per-login session key, the password-derived export key, and the server's
/// static public key.
pub struct LoginFinishOut {
    pub message: Vec<u8>,
    pub session_key: Vec<u8>,
    pub export_key: Vec<u8>,
    pub server_s_pk: Vec<u8>,
}

/// Relies on opaque_ke::ClientRegistration::start: blinds the credential
/// with fresh randomness. The state and message are its serializations;
/// nothing can be promised of their values.
#[verifier::external_body]
pub fn register_start(credential: &[u8]) -> (r: Result<
    StartOut,
    opaque_ke::errors::ProtocolError,
>)
{
    let mut rng = rand::rngs::OsRng;
    let out = opaque_ke::ClientRegistration::<DefaultCipherSuite>::start(&mut rng, credential)?;
    Ok(StartOut { state: out.state.serialize().to_vec(), message: out.message.serialize().to_vec() })
}

/// Relies on opaque_ke::ClientRegistration::finish: unblinds the server's
/// response and seals a fresh envelope. With the SHA-512 suite the export
/// key is 64 bytes and the serialized Ristretto255 public key 32 bytes.
#[verifier::external_body]
pub fn register_finish(credential: &[u8], state: &[u8], response: &[u8]) -> (r: Result<
    RegisterFinishOut,
    opaque_ke::errors::ProtocolError,
>)
    ensures
        r matches Ok(out) ==> out.export_key@.len() == 64 && out.server_s_pk@.len() == 32,
{
    let mut rng = rand::rngs::OsRng;
    let st = opaque_ke::ClientRegistration::<DefaultCipherSuite>::deserialize(state)?;
    let resp = opaque_ke::RegistrationResponse::<DefaultCipherSuite>::deserialize(response)?;
    let out = st.finish(&mut rng, credential, resp,
        opaque_ke::ClientRegistrationFinishParameters::default())?;
    Ok(RegisterFinishOut {
        message: out.message.serialize().to_vec(),
        export_key: out.export_key.to_vec(),
        server_s_pk: out.server_s_pk.serialize().to_vec(),
    })
}

/// Relies on opaque_ke::ClientLogin::start: blinds the credential and opens
/// a key exchange with fresh randomness.
#[verifier::external_body]
pub fn login_start(credential: &[u8]) -> (r: Result<
    StartOut,
    opaque_ke::errors::ProtocolError,
>)
{
    let mut rng = rand::rngs::OsRng;
    let out = opaque_ke::ClientLogin::<DefaultCipherSuite>::start(&mut rng, credential)?;
    Ok(StartOut { state: out.state.serialize().to_vec(), message: out.message.serialize().to_vec() })
}

/// What the login-finish computation yields for a credential, a serialized
/// state and a serialized credential response: the serialized finalization
/// message, the session key, the export key and the serialized server
/// static public key — or nothing where the protocol rejects. Unlike the
/// start steps, this computation draws no randomness, so its outcome is a
/// function of the three arguments alone.
pub uninterp spec fn login_fin_of(credential: Seq<u8>, state: Seq<u8>, response: Seq<u8>) -> Option<
    (Seq<u8>, Seq<u8>, Seq<u8>, Seq<u8>),
>;

/// The engine's login-finish outcome once a response text's base64 is
/// stripped: nothing for text that is not base64 or that the protocol
/// rejects, else the finish computation's four outputs.
pub open spec fn login_fin_of_text(credential: Seq<u8>, state: Seq<u8>, o: Seq<char>) -> Option<
    (Seq<u8>, Seq<u8>, Seq<u8>, Seq<u8>),
> {
    match b64_parse(o) {
        Option::None => Option::None,
        Option::Some(bytes) => login_fin_of(credential, state, bytes),
    }
}

/// Relies on opaque_ke::ClientLogin::finish: opens the envelope and
/// completes the key exchange; it rejects a wrong credential, and takes no
/// randomness, so it returns login_fin_of of its inputs. With the SHA-512
/// suite the session and export keys are 64 bytes and the serialized
/// Ristretto255 public key 32 bytes.
#[verifier::external_body]
pub fn login_finish(credential: &[u8], state: &[u8], response: &[u8]) -> (r: Result<
    LoginFinishOut,
    opaque_ke::errors::ProtocolError,
>)
    ensures
        r matches Ok(out) ==> login_fin_of(credential@, state@, response@) == Some(
            (out.message@, out.session_key@, out.export_key@, out.server_s_pk@),
        ) && out.session_key@.len() == 64 && out.export_key@.len() == 64 && out.server_s_pk@.len()
            == 32,
        r is Err ==> login_fin_of(credential@, state@, response@) is None,
{
    let st = opaque_ke::ClientLogin::<DefaultCipherSuite>::deserialize(state)?;
    let resp = opaque_ke::CredentialResponse::<DefaultCipherSuite>::deserialize(response)?;
    let out = st.finish(credential, resp, opaque_ke::ClientLoginFinishParameters::default())?;
    Ok(LoginFinishOut {
        message: out.message.serialize().to_vec(),
        session_key: out.session_key.to_vec(),
        export_key: out.export_key.to_vec(),
        server_s_pk: out.server_s_pk.serialize().to_vec(),
    })
}

} // verus!
