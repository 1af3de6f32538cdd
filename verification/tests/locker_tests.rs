//! The locker flows exercised against an in-process server speaking the
//! matching OPAQUE role, with a map standing in for the server's store.

use std::collections::HashMap;

use keypost_cli::{
    delete_locker_finish, delete_locker_start, encrypt_locker, open_locker_finish,
    open_locker_start, open_locker_unseal, register_locker_finish, register_locker_start,
    seal_unseal_round_trip, unseal_payload, CliError, DefaultCipherSuite, DeleteLockerResponse,
    LockerSession, OpenLockerResponse, RegisterLockerResponse,
};

use opaque_ke::{
    CredentialFinalization, CredentialRequest, RegistrationRequest, RegistrationUpload,
    ServerLogin, ServerLoginStartParameters, ServerRegistration, ServerSetup,
};
use rand::rngs::OsRng;

type Suite = DefaultCipherSuite;

/// The server's side of the locker store: per locker name, the password
/// file of the inner exchange and the sealed secret.
struct ServerLockers {
    setup: ServerSetup<Suite>,
    lockers: HashMap<String, (Vec<u8>, Vec<u8>)>,
}

impl ServerLockers {
    fn new() -> Self {
        ServerLockers { setup: ServerSetup::<Suite>::new(&mut OsRng), lockers: HashMap::new() }
    }
}

/// Drive a put of `secret` under `name`, keyed on `key`.
fn put(server: &mut ServerLockers, name: &str, email: &str, key: &[u8], secret: &str) {
    let (flow, start_req) = register_locker_start(name, email, key).expect("locker start");
    assert_eq!(start_req.id, name);
    assert_eq!(start_req.e, email);

    let m1 = base64::decode(&start_req.i).expect("base64");
    let server_start = ServerRegistration::<Suite>::start(
        &server.setup,
        RegistrationRequest::deserialize(&m1).expect("m1"),
        name.as_bytes(),
    )
    .expect("server start");
    let response = RegisterLockerResponse {
        id: 1,
        o: base64::encode(server_start.message.serialize()),
    };

    let finish_req =
        register_locker_finish(flow, &response, name, email, secret).expect("locker finish");
    assert_eq!(finish_req.id, name);

    let m3 = base64::decode(&finish_req.i).expect("base64");
    let record = ServerRegistration::<Suite>::finish(
        RegistrationUpload::deserialize(&m3).expect("upload"),
    );
    let sealed = base64::decode(&finish_req.c).expect("ciphertext is base64");
    // The server stores only a sealed envelope: nonce, ciphertext and tag,
    // 28 bytes beyond the secret, never the secret itself.
    assert_eq!(sealed.len(), secret.len() + 28);
    assert_ne!(&sealed[..], secret.as_bytes());
    server
        .lockers
        .insert(name.to_string(), (record.serialize().to_vec(), sealed));
}

/// Drive a get of `name`, keyed on `key`.
fn get(server: &ServerLockers, name: &str, email: &str, key: &[u8]) -> Result<String, CliError> {
    let (flow, start_req) = open_locker_start(name, email, key)?;
    let m1 = base64::decode(&start_req.i).expect("base64");
    let (record_bytes, sealed) = server.lockers.get(name).expect("locker exists");
    let record = ServerRegistration::<Suite>::deserialize(record_bytes).expect("record");
    let server_start = ServerLogin::<Suite>::start(
        &mut OsRng,
        &server.setup,
        Some(record),
        CredentialRequest::deserialize(&m1).expect("m1"),
        name.as_bytes(),
        ServerLoginStartParameters::default(),
    )
    .expect("server login start");
    let response = OpenLockerResponse {
        id: 2,
        o: base64::encode(server_start.message.serialize()),
        n: 77,
    };

    let (session, finish_req) = open_locker_finish(flow, &response, name, email)?;
    assert_eq!(finish_req.n, 77);

    let m3 = base64::decode(&finish_req.i).expect("base64");
    let server_finish = server_start
        .state
        .finish(CredentialFinalization::deserialize(&m3).expect("m3"))
        .expect("server accepts");
    // The server wraps the stored ciphertext under the session key for
    // transit.
    let outer = encrypt_locker(&server_finish.session_key.to_vec(), sealed);
    open_locker_unseal(&session, &base64::encode(outer))
}

#[test]
fn put_then_get_returns_the_secret() {
    let mut server = ServerLockers::new();
    let key = [3u8; 64];
    put(&mut server, "pin", "a@x", &key, "1234");
    let secret = get(&server, "pin", "a@x", &key).expect("get succeeds");
    assert_eq!(secret, "1234");
}

#[test]
fn get_with_a_different_key_is_rejected() {
    let mut server = ServerLockers::new();
    let key = [3u8; 64];
    let other = [4u8; 64];
    put(&mut server, "pin", "a@x", &key, "1234");
    let err = get(&server, "pin", "a@x", &other).err().expect("wrong key fails");
    match &err {
        CliError::Protocol(message) => assert_eq!(message, "Incorrect password, please try again."),
        other => panic!("expected a protocol error, got {:?}", other),
    }
}

#[test]
fn delete_removes_the_server_entry() {
    let mut server = ServerLockers::new();
    let key = [3u8; 64];
    put(&mut server, "pin", "a@x", &key, "1234");

    let (flow, start_req) = delete_locker_start("pin", "a@x", &key).expect("delete start");
    let m1 = base64::decode(&start_req.i).expect("base64");
    let (record_bytes, _) = server.lockers.get("pin").expect("locker exists");
    let record = ServerRegistration::<Suite>::deserialize(record_bytes).expect("record");
    let server_start = ServerLogin::<Suite>::start(
        &mut OsRng,
        &server.setup,
        Some(record),
        CredentialRequest::deserialize(&m1).expect("m1"),
        b"pin",
        ServerLoginStartParameters::default(),
    )
    .expect("server login start");
    let response = DeleteLockerResponse {
        id: 3,
        o: base64::encode(server_start.message.serialize()),
        n: 88,
    };

    let finish_req = delete_locker_finish(flow, &response, "pin", "a@x").expect("delete finish");
    assert_eq!(finish_req.n, 88);

    // The finalization proves ownership; the server then drops the entry.
    let m3 = base64::decode(&finish_req.i).expect("base64");
    server_start
        .state
        .finish(CredentialFinalization::deserialize(&m3).expect("m3"))
        .expect("ownership proven");
    server.lockers.remove("pin");
    assert!(server.lockers.get("pin").is_none());

    // A later open cannot complete: what the server would answer with is
    // gone, and a made-up response is rejected by the protocol.
    let (flow, _) = open_locker_start("pin", "a@x", &key).expect("start");
    let bogus = OpenLockerResponse { id: 4, o: base64::encode([0u8; 32]), n: 0 };
    assert!(open_locker_finish(flow, &bogus, "pin", "a@x").is_err());
}

#[test]
fn expired_sessions_surface_as_unauthorized() {
    let key = [3u8; 64];
    let (flow, _) = open_locker_start("pin", "a@x", &key).expect("start");
    let response = OpenLockerResponse::unauthorized(0, 0);
    let err = open_locker_finish(flow, &response, "pin", "a@x").err().expect("401 fails");
    assert!(matches!(err, CliError::Unauthorized));
    assert!(err.needs_relogin());

    let (flow, _) = register_locker_start("pin", "a@x", &key).expect("start");
    let response = RegisterLockerResponse::unauthorized();
    let err = register_locker_finish(flow, &response, "pin", "a@x", "s")
        .err()
        .expect("401 fails");
    assert!(matches!(err, CliError::Unauthorized));

    let (flow, _) = delete_locker_start("pin", "a@x", &key).expect("start");
    let response = DeleteLockerResponse::unauthorized();
    let err = delete_locker_finish(flow, &response, "pin", "a@x").err().expect("401 fails");
    assert!(matches!(err, CliError::Unauthorized));

    let session = LockerSession { session_key: vec![0u8; 64], export_key: vec![0u8; 64] };
    let err = open_locker_unseal(&session, "unauthorized").err().expect("401 fails");
    assert!(matches!(err, CliError::Unauthorized));
}

#[test]
fn unseal_rejects_bad_base64() {
    let session = LockerSession { session_key: vec![0u8; 64], export_key: vec![0u8; 64] };
    let err = unseal_payload(&session, "!!!").err().expect("bad base64 fails");
    match &err {
        CliError::Parse(message) => assert_eq!(message, "Could not base64 decode!"),
        other => panic!("expected a parse error, got {:?}", other),
    }
}

#[test]
fn unseal_rejects_a_wrong_key() {
    let session_key = vec![1u8; 64];
    let export_key = vec![2u8; 64];
    let inner = encrypt_locker(&export_key, b"secret");
    let outer = encrypt_locker(&session_key, &inner);
    let wrong = LockerSession { session_key: vec![9u8; 64], export_key };
    let err = unseal_payload(&wrong, &base64::encode(&outer)).err().expect("wrong key fails");
    match &err {
        CliError::Protocol(message) => assert_eq!(message, "incorrect password or corrupt locker"),
        other => panic!("expected a protocol error, got {:?}", other),
    }
}

#[test]
fn unseal_rejects_secrets_that_are_not_utf8() {
    let session_key = vec![1u8; 64];
    let export_key = vec![2u8; 64];
    let inner = encrypt_locker(&export_key, &[0xff, 0xfe, 0x00]);
    let outer = encrypt_locker(&session_key, &inner);
    let session = LockerSession { session_key, export_key };
    let err = unseal_payload(&session, &base64::encode(&outer)).err().expect("must fail");
    match &err {
        CliError::Parse(message) => assert_eq!(message, "UTF8 error"),
        other => panic!("expected a parse error, got {:?}", other),
    }
}

#[test]
fn sealing_and_unsealing_roundtrips() {
    let session = LockerSession { session_key: vec![1u8; 64], export_key: vec![2u8; 64] };
    let secret = seal_unseal_round_trip(&session, "p@ssw0rd, carefully").expect("round trip");
    assert_eq!(secret, "p@ssw0rd, carefully");

    let inner = encrypt_locker(&session.export_key, "1234".as_bytes());
    let outer = encrypt_locker(&session.session_key, &inner);
    let opened = unseal_payload(&session, &base64::encode(outer)).expect("unseal");
    assert_eq!(opened, "1234");
}
