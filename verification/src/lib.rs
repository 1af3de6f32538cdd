//! Client-side core of a password-authenticated secret-storage service.
//!
//! The library holds the protocol logic: nonce construction, AEAD sealing
//! of locker secrets, the challenge-response that upgrades a login into a
//! bearer session token, server key pinning, the session file layout, and
//! the request builders for every wire endpoint. I/O (HTTP, the terminal,
//! the key files on disk) lives outside the library and hands it plain
//! values.

mod account;
mod aead;
mod cli;
mod codec;
mod engine;
mod locker;
mod models;
mod nonce;
mod random;
mod store;
mod util;

pub use account::challenge_answer_of;
pub use account::login_challenge_answer;
pub use account::login_finish;
pub use account::login_start;
pub use account::login_verify_outcome;
pub use account::make_session_token;
pub use account::registration_finish;
pub use account::registration_start;
pub use account::session_token_of;
pub use account::LoginFlow;
pub use account::LoginSession;
pub use account::RegisteredAccount;
pub use account::RegistrationFlow;
pub use account::PKCE_VERIFIER_LEN;
pub use aead::aead_cipher;
pub use aead::aead_max_plaintext_len;
pub use aead::aead_open;
pub use aead::decrypt_locker;
pub use aead::encrypt_bytes;
pub use aead::encrypt_bytes_with_u32_nonce;
pub use aead::encrypt_locker;
pub use aead::locker_round_trip;
pub use cli::choice_of;
pub use cli::menu_text;
pub use cli::parse_menu_choice;
pub use cli::MenuChoice;
pub use codec::b64_of;
pub use codec::b64_parse;
pub use codec::pkce_challenge_of;
pub use codec::sha256_of;
pub use engine::login_fin_of;
pub use engine::login_fin_of_text;
pub use engine::DefaultCipherSuite;
pub use locker::delete_locker_finish;
pub use locker::delete_locker_start;
pub use locker::open_locker_finish;
pub use locker::open_locker_start;
pub use locker::open_locker_unseal;
pub use locker::register_locker_finish;
pub use locker::register_locker_start;
pub use locker::seal_unseal_round_trip;
pub use locker::seals_secret;
pub use locker::unseal_payload;
pub use locker::unsealed_secret;
pub use locker::LockerFlow;
pub use locker::LockerSession;
pub use models::CliError;
pub use models::CliRequest;
pub use models::CliResponse;
pub use models::DeleteLockerFinishRequest;
pub use models::DeleteLockerResponse;
pub use models::DeleteLockerStartRequest;
pub use models::LoginFinishRequest;
pub use models::LoginResponse;
pub use models::LoginStartRequest;
pub use models::LoginVerifyRequest;
pub use models::OpenLockerFinishRequest;
pub use models::OpenLockerResponse;
pub use models::OpenLockerStartRequest;
pub use models::RegisterFinishRequest;
pub use models::RegisterLockerFinishRequest;
pub use models::RegisterLockerResponse;
pub use models::RegisterLockerStartRequest;
pub use models::RegisterResponse;
pub use models::RegisterStartRequest;
pub use nonce::be_bytes_of_u32;
pub use nonce::expand_u32_nonce;
pub use nonce::expanded_nonce_of;
pub use nonce::lemma_expanded_nonce_injective;
pub use store::check_server_key_pin;
pub use store::pin_admits;
pub use store::session_file_payload;
pub use store::session_payload_round_trip;
pub use store::split_session_payload;
pub use store::PinCheck;
pub use store::SESSION_ID_LEN;
