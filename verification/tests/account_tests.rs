//! The account flows exercised against an in-process server speaking the
//! matching OPAQUE role.

use keypost_cli::{
    login_challenge_answer, login_finish, login_start, login_verify_outcome, make_session_token,
    registration_finish, registration_start, CliError, DefaultCipherSuite, LoginResponse,
    LoginSession, PinCheck, RegisterResponse, RegisteredAccount,
};

use opaque_ke::{
    CredentialFinalization, CredentialRequest, RegistrationRequest, RegistrationUpload,
    ServerLogin, ServerLoginStartParameters, ServerRegistration, ServerSetup,
};
use rand::rngs::OsRng;
use sha2::Digest;

type Suite = DefaultCipherSuite;

/// Run a full registration against the server role; returns what the client
/// keeps and the password file the server stores.
fn run_registration(
    setup: &ServerSetup<Suite>,
    email: &str,
    password: &str,
) -> (RegisteredAccount, Vec<u8>) {
    let (flow, start_req) = registration_start(email, password).expect("registration start");
    assert_eq!(start_req.e, email);
    // The challenge committed to is the verifier's; cross-check with the
    // PKCE crate itself.
    assert_eq!(start_req.c, pkce::code_challenge(&flow.verifier));

    let m1 = base64::decode(&start_req.i).expect("request carries base64");
    let server_start = ServerRegistration::<Suite>::start(
        setup,
        RegistrationRequest::deserialize(&m1).expect("m1 deserializes"),
        email.as_bytes(),
    )
    .expect("server registration start");
    let response = RegisterResponse {
        id: 42,
        o: base64::encode(server_start.message.serialize()),
    };

    let (account, finish_req) = registration_finish(flow, &response).expect("registration finish");
    assert_eq!(finish_req.id, 42);
    assert_eq!(finish_req.e, email);

    let m3 = base64::decode(&finish_req.i).expect("upload is base64");
    let record = ServerRegistration::<Suite>::finish(
        RegistrationUpload::deserialize(&m3).expect("upload deserializes"),
    );
    (account, record.serialize().to_vec())
}

/// Run a login up to the finish step; returns the client's outcome and the
/// server's session key.
fn run_login(
    setup: &ServerSetup<Suite>,
    record_bytes: &[u8],
    email: &str,
    password: &str,
    login_id: u32,
    pinned: Option<&Vec<u8>>,
) -> Result<(LoginSession, PinCheck, Vec<u8>), CliError> {
    let (flow, start_req) = login_start(email, password)?;
    assert_eq!(start_req.e, email);

    let m1 = base64::decode(&start_req.i).expect("request carries base64");
    let record = ServerRegistration::<Suite>::deserialize(record_bytes).expect("record");
    let server_start = ServerLogin::<Suite>::start(
        &mut OsRng,
        setup,
        Some(record),
        CredentialRequest::deserialize(&m1).expect("m1 deserializes"),
        email.as_bytes(),
        ServerLoginStartParameters::default(),
    )
    .expect("server login start");
    let response = LoginResponse {
        id: login_id,
        o: base64::encode(server_start.message.serialize()),
    };

    let (session, finish_req, pin) = login_finish(flow, &response, pinned)?;
    assert_eq!(finish_req.id, login_id);
    assert_eq!(finish_req.e, email);

    let m3 = base64::decode(&finish_req.i).expect("finalization is base64");
    let server_finish = server_start
        .state
        .finish(CredentialFinalization::deserialize(&m3).expect("m3 deserializes"))
        .expect("server accepts the finalization");
    Ok((session, pin, server_finish.session_key.to_vec()))
}

#[test]
fn register_then_login_succeeds_and_derives_equal_export_keys() {
    let setup = ServerSetup::<Suite>::new(&mut OsRng);
    let (account, record) = run_registration(&setup, "a@x", "hunter2");
    assert_eq!(account.export_key.len(), 64);
    assert_eq!(account.server_s_pk.len(), 32);

    let (session, pin, server_session_key) =
        run_login(&setup, &record, "a@x", "hunter2", 7, None).expect("login succeeds");
    assert!(matches!(pin, PinCheck::Store));
    assert_eq!(session.session_key, server_session_key);
    assert_eq!(session.export_key.len(), 64);
    // The export key a login derives is byte-equal to the one registration
    // derived.
    assert_eq!(session.export_key, account.export_key);
    assert_eq!(session.server_s_pk, account.server_s_pk);
}

#[test]
fn login_with_wrong_password_is_rejected() {
    let setup = ServerSetup::<Suite>::new(&mut OsRng);
    let (_, record) = run_registration(&setup, "a@x", "hunter2");

    let err = run_login(&setup, &record, "a@x", "wrong", 8, None)
        .err()
        .expect("wrong password must fail");
    match &err {
        CliError::Protocol(message) => assert!(message.contains("login")),
        other => panic!("expected a protocol error, got {:?}", other),
    }
}

#[test]
fn login_against_a_different_pinned_key_is_refused() {
    let setup = ServerSetup::<Suite>::new(&mut OsRng);
    let (account, record) = run_registration(&setup, "a@x", "hunter2");

    let mut wrong = account.server_s_pk.clone();
    wrong[0] ^= 1;
    let err = run_login(&setup, &record, "a@x", "hunter2", 9, Some(&wrong))
        .err()
        .expect("pin mismatch must abort");
    assert!(matches!(err, CliError::KeyPinMismatch));
}

#[test]
fn login_against_the_pinned_key_passes() {
    let setup = ServerSetup::<Suite>::new(&mut OsRng);
    let (account, record) = run_registration(&setup, "a@x", "hunter2");

    let pinned = account.server_s_pk.clone();
    let (session, pin, _) = run_login(&setup, &record, "a@x", "hunter2", 10, Some(&pinned))
        .expect("login against the pinned key succeeds");
    assert!(matches!(pin, PinCheck::Match));
    assert_eq!(session.server_s_pk, pinned);
}

#[test]
fn two_logins_produce_different_session_tokens() {
    let setup = ServerSetup::<Suite>::new(&mut OsRng);
    let (_, record) = run_registration(&setup, "a@x", "hunter2");

    let (first, _, _) = run_login(&setup, &record, "a@x", "hunter2", 21, None).expect("login");
    let (second, _, _) = run_login(&setup, &record, "a@x", "hunter2", 22, None).expect("login");
    assert_ne!(first.session_key, second.session_key);

    let token_one = make_session_token(21, &first.session_key);
    let token_two = make_session_token(22, &second.session_key);
    assert_ne!(token_one, token_two);
}

#[test]
fn challenge_answer_matches_an_independent_computation() {
    let session_key = [5u8; 64];
    let challenge = [1u8, 2, 3, 4, 5, 6, 7, 8];
    let id: u32 = 0x01020304;
    let request = login_challenge_answer(id, &session_key, &base64::encode(challenge))
        .expect("challenge answer");
    assert_eq!(request.id, id);

    // Recompute with the AEAD and hash crates directly.
    let cipher = <chacha20poly1305::ChaCha20Poly1305 as chacha20poly1305::aead::NewAead>::new(
        chacha20poly1305::Key::from_slice(&session_key[..32]),
    );
    let nonce = [1u8, 2, 3, 4, 1, 2, 3, 4, 1, 2, 3, 4];
    let ciphertext = chacha20poly1305::aead::Aead::encrypt(
        &cipher,
        chacha20poly1305::Nonce::from_slice(&nonce),
        &challenge[..],
    )
    .expect("encrypt");
    let expected = base64::encode(sha2::Sha256::digest(&ciphertext));
    assert_eq!(request.i, expected);
}

#[test]
fn challenge_answer_rejects_the_failed_sentinel() {
    let session_key = [5u8; 64];
    let err = login_challenge_answer(3, &session_key, "Failed")
        .err()
        .expect("the Failed sentinel aborts");
    match &err {
        CliError::Protocol(message) => assert_eq!(message, "login_finish error"),
        other => panic!("expected a protocol error, got {:?}", other),
    }
}

#[test]
fn challenge_answer_rejects_bad_base64() {
    let session_key = [5u8; 64];
    let err = login_challenge_answer(3, &session_key, "!!! not base64 !!!")
        .err()
        .expect("bad base64 aborts");
    assert!(matches!(err, CliError::Parse(_)));
}

#[test]
fn only_the_success_literal_completes_a_login() {
    assert!(login_verify_outcome("Success").is_ok());
    let err = login_verify_outcome("nope").err().expect("must fail");
    match &err {
        CliError::Protocol(message) => assert_eq!(message, "login_verify error"),
        other => panic!("expected a protocol error, got {:?}", other),
    }
    assert!(login_verify_outcome("success").is_err());
    assert!(login_verify_outcome("").is_err());
}

#[test]
fn registration_finish_rejects_bad_base64() {
    let (flow, _) = registration_start("a@x", "pw").expect("start");
    let response = RegisterResponse { id: 1, o: String::from("!!!") };
    let err = registration_finish(flow, &response).err().expect("must fail");
    match &err {
        CliError::Parse(message) => assert_eq!(message, "Could not decode base64 str"),
        other => panic!("expected a parse error, got {:?}", other),
    }
}

#[test]
fn registration_finish_discloses_the_committed_verifier() {
    let setup = ServerSetup::<Suite>::new(&mut OsRng);
    let (flow, start_req) = registration_start("a@x", "pw").expect("start");
    let verifier = flow.verifier.clone();
    assert_eq!(verifier.len(), 128);
    assert_eq!(start_req.c, pkce::code_challenge(&verifier));

    let m1 = base64::decode(&start_req.i).expect("base64");
    let server_start = ServerRegistration::<Suite>::start(
        &setup,
        RegistrationRequest::deserialize(&m1).expect("m1"),
        b"a@x",
    )
    .expect("server start");
    let response = RegisterResponse {
        id: 5,
        o: base64::encode(server_start.message.serialize()),
    };
    let (_, finish_req) = registration_finish(flow, &response).expect("finish");
    assert_eq!(finish_req.v, base64::encode(&verifier));
}
