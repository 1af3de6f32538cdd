//! Wire models: one request and one response shape per protocol endpoint,
//! with the short field names the server speaks (`e` email, `i` protocol
//! input, `o` protocol output, `id` server id, `n` nonce, `c` ciphertext or
//! challenge, `v` verifier), and the error taxonomy every flow reports in.

use vstd::prelude::*;
use vstd::string::StringExecFns;

verus! {

/// A request carrying every field any endpoint uses; kept for callers that
/// prefer one shape for all endpoints.
#[derive(Debug, Clone)]
pub struct CliRequest {
    pub id: u32,
    pub e: String,
    pub i: String,
    pub ch: String,
    pub ci: String,
    pub ve: String,
    pub n: u32,
}

/// A response carrying every field any endpoint returns.
#[derive(Debug, Clone)]
pub struct CliResponse {
    pub id: u32,
    pub o: String,
    pub n: u32,
}

#[derive(Debug, Clone)]
pub struct RegisterStartRequest {
    pub e: String,
    pub i: String,
    pub c: String,
}

#[derive(Debug, Clone)]
pub struct RegisterFinishRequest {
    pub id: u32,
    pub e: String,
    pub i: String,
    pub v: String,
}

#[derive(Debug, Clone)]
pub struct LoginStartRequest {
    pub e: String,
    pub i: String,
}

#[derive(Debug, Clone)]
pub struct LoginFinishRequest {
    pub id: u32,
    pub e: String,
    pub i: String,
}

#[derive(Debug, Clone)]
pub struct LoginVerifyRequest {
    pub id: u32,
    pub i: String,
}

#[derive(Debug, Clone)]
pub struct RegisterResponse {
    pub id: u32,
    pub o: String,
}

#[derive(Debug, Clone)]
pub struct LoginResponse {
    pub id: u32,
    pub o: String,
}

#[derive(Debug, Clone)]
pub struct RegisterLockerResponse {
    pub id: u32,
    pub o: String,
}

#[derive(Debug, Clone)]
pub struct RegisterLockerStartRequest {
    pub id: String,
    pub e: String,
    pub i: String,
}

#[derive(Debug, Clone)]
pub struct RegisterLockerFinishRequest {
    pub id: String,
    pub e: String,
    pub i: String,
    pub c: String,
}

#[derive(Debug, Clone)]
pub struct OpenLockerStartRequest {
    pub id: String,
    pub e: String,
    pub i: String,
}

#[derive(Debug, Clone)]
pub struct OpenLockerFinishRequest {
    pub id: String,
    pub e: String,
    pub i: String,
    pub n: u32,
}

#[derive(Debug, Clone)]
pub struct OpenLockerResponse {
    pub id: u32,
    pub o: String,
    pub n: u32,
}

#[derive(Debug, Clone)]
pub struct DeleteLockerStartRequest {
    pub id: String,
    pub e: String,
    pub i: String,
}

#[derive(Debug, Clone)]
pub struct DeleteLockerFinishRequest {
    pub id: String,
    pub e: String,
    pub i: String,
    pub n: u32,
}

#[derive(Debug, Clone)]
pub struct DeleteLockerResponse {
    pub id: u32,
    pub o: String,
    pub n: u32,
}

impl OpenLockerResponse {
    /// The response an expired session synthesizes locally for a 401.
    pub fn unauthorized(id: u32, n: u32) -> (r: OpenLockerResponse)
        ensures
            r.id == id,
            r.n == n,
            r.o@ == "unauthorized"@,
    {
        OpenLockerResponse { id, o: String::from_str("unauthorized"), n }
    }

    /// The response synthesized for a server outcome nothing else explains.
    pub fn unknown(id: u32, n: u32) -> (r: OpenLockerResponse)
        ensures
            r.id == id,
            r.n == n,
            r.o@ == "unknown"@,
    {
        OpenLockerResponse { id, o: String::from_str("unknown"), n }
    }
}

impl RegisterLockerResponse {
    /// The response an expired session synthesizes locally for a 401.
    pub fn unauthorized() -> (r: RegisterLockerResponse)
        ensures
            r.id == 0,
            r.o@ == "unauthorized"@,
    {
        RegisterLockerResponse { id: 0, o: String::from_str("unauthorized") }
    }

    /// The response synthesized for a server outcome nothing else explains.
    pub fn unknown() -> (r: RegisterLockerResponse)
        ensures
            r.id == 0,
            r.o@ == "unknown"@,
    {
        RegisterLockerResponse { id: 0, o: String::from_str("unknown") }
    }
}

impl DeleteLockerResponse {
    /// The response an expired session synthesizes locally for a 401.
    pub fn unauthorized() -> (r: DeleteLockerResponse)
        ensures
            r.id == 0,
            r.n == 0,
            r.o@ == "unauthorized"@,
    {
        DeleteLockerResponse { id: 0, o: String::from_str("unauthorized"), n: 0 }
    }

    /// The response synthesized for a server outcome nothing else explains.
    pub fn unknown() -> (r: DeleteLockerResponse)
        ensures
            r.id == 0,
            r.n == 0,
            r.o@ == "unknown"@,
    {
        DeleteLockerResponse { id: 0, o: String::from_str("unknown"), n: 0 }
    }
}

/// The error taxonomy. Every operation reports one of these kinds and no
/// step-level detail beyond it, so no failure becomes an oracle.
#[derive(Debug, Clone)]
pub enum CliError {
    /// The server could not be reached or its body not read.
    Transport(String),
    /// The server's response was not the expected shape.
    Parse(String),
    /// A 401 on an authenticated endpoint: the session expired.
    Unauthorized,
    /// The cryptographic protocol rejected at some step; the message names
    /// only the operation's context, never the step.
    Protocol(String),
    /// The server's static public key differs from the pinned one.
    KeyPinMismatch,
    /// The secure store failed.
    Io(String),
    /// A non-2xx, non-401 status; the body is kept for diagnosis.
    UnknownServer(String),
}

impl CliError {
    /// Whether the flow should prompt a fresh login and retry.
    pub fn needs_relogin(&self) -> (r: bool)
        ensures
            r == (self is Unauthorized),
    {
        match self {
            CliError::Unauthorized => true,
            _ => false,
        }
    }

    /// The text shown to the user: the kind, and for kinds that carry one,
    /// the context message.
    pub fn message(&self) -> (r: String)
        ensures
            self matches CliError::Transport(s) ==> r@ == s@,
            self matches CliError::Parse(s) ==> r@ == s@,
            self is Unauthorized ==> r@ == "unauthorized"@,
            self matches CliError::Protocol(s) ==> r@ == s@,
            self is KeyPinMismatch ==> r@
                == "server public key doesn't match, possible man-in-the-middle attack!"@,
            self matches CliError::Io(s) ==> r@ == s@,
            self matches CliError::UnknownServer(s) ==> r@ == s@,
    {
        match self {
            CliError::Transport(s) => s.clone(),
            CliError::Parse(s) => s.clone(),
            CliError::Unauthorized => String::from_str("unauthorized"),
            CliError::Protocol(s) => s.clone(),
            CliError::KeyPinMismatch => String::from_str(
                "server public key doesn't match, possible man-in-the-middle attack!",
            ),
            CliError::Io(s) => s.clone(),
            CliError::UnknownServer(s) => s.clone(),
        }
    }
}

} // verus!
