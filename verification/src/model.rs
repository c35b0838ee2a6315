//! The records that the service stores, receives and hands out.

use vstd::prelude::*;

verus! {

/// A request to register or to log in: an address and a password.
#[derive(Debug, Clone, PartialEq, Eq, Default)]
pub struct CreateUser {
    pub email: String,
    pub hashed_password: String,
}

/// What a login needs of a stored user.
#[derive(Debug, Clone, PartialEq, Eq, Default)]
pub struct FindUser {
    pub id: i32,
    pub hashed_password: String,
}

/// A session as it is stored.
///
/// `session_verifier` is the hexadecimal SHA-256 digest of the secret that
/// the client holds; the secret itself is never stored. The passcode is
/// stored sealed, bound to `user_id`.
#[derive(Debug, Clone, PartialEq, Eq, Default)]
pub struct UserSession {
    pub id: i32,
    pub user_id: i32,
    pub session_verifier: String,
    pub otp_code_confirmed: bool,
    pub otp_code_encrypted: String,
    pub otp_code_attempts: u32,
    pub otp_code_sent: bool,
}

/// The columns of a session that is about to be stored.
#[derive(Debug, Clone, PartialEq, Eq, Default)]
pub struct SessionAdd {
    pub user_id: i32,
    pub session_verifier: String,
    pub otp_code_encr: String,
}

/// What identifies a session in a request.
///
/// In the token that the client keeps, `session_verifier` is the client's
/// secret in hexadecimal. Once a request has been read, it is the
/// hexadecimal digest of that secret, which is what the store knows.
#[derive(Debug, Clone, PartialEq, Eq)]
pub struct Session {
    pub session_id: i32,
    pub session_verifier: String,
    pub master_key_hash: Option<String>,
}

/// The answers of an endpoint that could not serve a request.
#[derive(Debug, Clone, PartialEq, Eq)]
pub enum ErrorResponse {
    /// Nothing was found for the search term.
    NotFound(String),
    /// What was to be stored is there already.
    Conflict(String),
    /// The request came without the right credentials.
    Unauthorized(String),
}

/// The address of a stored user.
#[derive(Debug, Clone, PartialEq, Eq, Default)]
pub struct UserMail {
    pub email: String,
}

/// The identity of a user that was just stored.
#[derive(Debug, Clone, Copy, PartialEq, Eq, Default)]
pub struct CreatedUser {
    pub id: i32,
}

/// The identity of a session that was just stored.
#[derive(Debug, Clone, Copy, PartialEq, Eq, Default)]
pub struct CreatedSession {
    pub id: i32,
}

/// A passcode as a client submits it.
#[derive(Debug, Clone, PartialEq, Eq, Default)]
pub struct Otp {
    pub code: String,
}

} // verus!
