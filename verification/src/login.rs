//! Logging in: who gets a session.
//!
//! An account that does not exist must not show in what the client sees.

use vstd::prelude::*;
use crate::encryption::KEY_LENGTH;
use crate::errors::{ServiceError, STATUS_UNAUTHORIZED};
use crate::model::FindUser;
use crate::otp::STATUS_ACCEPTED;
use crate::password::{password_matches, verify_hash};
use crate::session::{is_new_session, session_create, SessionDraft};

verus! {

/// What a login came to.
#[derive(Debug, Clone, PartialEq, Eq)]
pub enum LoginOutcome {
    /// The password was right: a session was made and waits to be stored.
    SessionIssued(SessionDraft),
    /// The password was wrong.
    Unauthorized,
    /// There is no account under the address.
    NotFound,
}

impl LoginOutcome {
    /// The HTTP status that answers the outcome. The two failures answer
    /// alike.
    pub open spec fn status(self) -> u16 {
        match self {
            LoginOutcome::SessionIssued(_) => STATUS_ACCEPTED,
            _ => STATUS_UNAUTHORIZED,
        }
    }

    /// The text that the answer carries. The two failures answer alike.
    pub open spec fn body(self) -> Seq<char> {
        match self {
            LoginOutcome::SessionIssued(_) => ""@,
            _ => "Authentication failure"@,
        }
    }

    /// The status and the text that answer the outcome.
    pub fn response(&self) -> (answer: (u16, &'static str))
        ensures
            answer.0 == self.status(),
            answer.1@ == self.body(),
    {
        match self {
            LoginOutcome::SessionIssued(_) => (STATUS_ACCEPTED, ""),
            _ => (STATUS_UNAUTHORIZED, "Authentication failure"),
        }
    }
}

/// `outcome` is what a login comes to, for the account that was looked up
/// and the password that was given.
pub open spec fn is_login_outcome(
    found: Option<FindUser>,
    password: Seq<char>,
    key: Seq<u8>,
    outcome: Result<LoginOutcome, ServiceError>,
) -> bool {
    match found {
        None => outcome == Ok::<LoginOutcome, ServiceError>(LoginOutcome::NotFound),
        Some(user) => if !password_matches(password, user.hashed_password@) {
            outcome == Ok::<LoginOutcome, ServiceError>(LoginOutcome::Unauthorized)
        } else if key.len() == KEY_LENGTH {
            outcome matches Ok(LoginOutcome::SessionIssued(draft)) && is_new_session(
                draft,
                user.id,
                key,
            )
        } else {
            outcome == Err::<LoginOutcome, ServiceError>(ServiceError::CryptoError)
        },
    }
}

/// Decides a login from the account that was looked up under the address,
/// if there is one, and the password that was given.
///
/// No account gives `NotFound`, a password that the stored hash does not
/// accept gives `Unauthorized`. Otherwise a session is made for the
/// account's user, which fails with `CryptoError` exactly where the key is
/// not 32 bytes.
pub fn process_login(
    found: Option<FindUser>,
    password: &str,
    use_bcrypt: bool,
    key: &[u8],
) -> (outcome: Result<LoginOutcome, ServiceError>)
    ensures
        is_login_outcome(found, password@, key@, outcome),
{
    match found {
        Some(user) => {
            if verify_hash(password, user.hashed_password.as_str(), use_bcrypt) {
                match session_create(user.id, key) {
                    Ok(draft) => Ok(LoginOutcome::SessionIssued(draft)),
                    Err(e) => Err(e),
                }
            } else {
                Ok(LoginOutcome::Unauthorized)
            }
        },
        None => Ok(LoginOutcome::NotFound),
    }
}

/// A login that fails for want of an account and one that fails for a wrong
/// password are answered alike.
pub proof fn lemma_login_failures_look_alike()
    ensures
        LoginOutcome::NotFound.status() == LoginOutcome::Unauthorized.status(),
        LoginOutcome::NotFound.body() == LoginOutcome::Unauthorized.body(),
{
}

} // verus!
