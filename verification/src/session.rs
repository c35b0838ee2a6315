//! The life of a session: how one is made, and how a request is matched to
//! the session it claims.
//!
//! The client holds a random secret, the verifier. The store holds only the
//! SHA-256 digest of it, in hexadecimal: whoever reads the store cannot pose
//! as the client.

use vstd::prelude::*;
use crate::compare::constant_time_compare;
use crate::digest::{sha256, sha256_digest};
use crate::encryption::{
    encrypt_with_nonce, opened_text, sealed_blob, KEY_LENGTH, NONCE_LENGTH,
};
use crate::errors::ServiceError;
use crate::hexcode::{
    hex_decode, hex_encode, hex_text, is_hex, lemma_hex_injective, lemma_text_bytes,
    lemma_unhex_hex, unhex,
};
use crate::model::{Session, SessionAdd, UserSession};
use crate::random::{random_bytes, random_in_range};
use crate::text::{decimal, decimal_text, lemma_decimal_is_short};

verus! {

/// The length of a verifier, in bytes.
pub const VERIFIER_LENGTH: usize = 32;

/// The least passcode.
pub const OTP_MIN: u32 = 10000;

/// The bound that every passcode is below.
pub const OTP_END: u32 = 99999;

/// What the store keeps of a verifier: its digest, in hexadecimal.
pub open spec fn verifier_digest(verifier: Seq<u8>) -> Seq<char> {
    hex_text(sha256(verifier))
}

/// A session that is ready to be stored, with the secret for the client.
#[derive(Debug, Clone, PartialEq, Eq)]
pub struct SessionDraft {
    /// The row to store.
    pub row: SessionAdd,
    /// The verifier in hexadecimal, for the client's token and nowhere else.
    pub verifier: String,
}

/// `draft` is the session of `user_id` with the passcode `code`, sealed
/// under `key` with `nonce`, and with the verifier `verifier`.
pub open spec fn is_draft_of(
    draft: SessionDraft,
    user_id: i32,
    key: Seq<u8>,
    code: u32,
    nonce: Seq<u8>,
    verifier: Seq<u8>,
) -> bool {
    &&& draft.row.user_id == user_id
    &&& draft.row.session_verifier@ == verifier_digest(verifier)
    &&& draft.verifier@ == hex_text(verifier)
    &&& sealed_blob(decimal_text(code as int), decimal_text(user_id as int), key, nonce) == Some(
        draft.row.otp_code_encr@,
    )
    &&& opened_text(draft.row.otp_code_encr@, decimal_text(user_id as int), key) == Some(
        decimal_text(code as int),
    )
}

/// `draft` is a new session of `user_id` under `key`: some passcode of five
/// digits, sealed with some nonce, and some verifier of 32 bytes.
pub open spec fn is_new_session(draft: SessionDraft, user_id: i32, key: Seq<u8>) -> bool {
    exists|code: u32, nonce: Seq<u8>, verifier: Seq<u8>|
        OTP_MIN <= code < OTP_END && nonce.len() == NONCE_LENGTH && verifier.len()
            == VERIFIER_LENGTH && #[trigger] is_draft_of(draft, user_id, key, code, nonce, verifier)
}

/// The digest of a verifier, as the store keeps it.
pub fn hash_verifier(verifier: &[u8]) -> (digest: String)
    ensures
        digest@ == verifier_digest(verifier@),
{
    let digest = sha256_digest(verifier);
    hex_encode(digest.as_slice())
}

/// Makes the session of `user_id` from values that were drawn beforehand:
/// the passcode, the nonce that seals it and the verifier.
///
/// The passcode is sealed in decimal, bound to the user's id in decimal.
/// Fails with `CryptoError` exactly where the key is not 32 bytes or the
/// nonce not 12.
pub fn session_draft(
    user_id: i32,
    key: &[u8],
    code: u32,
    nonce: &[u8],
    verifier: &[u8],
) -> (draft: Result<SessionDraft, ServiceError>)
    ensures
        draft is Ok <==> key@.len() == KEY_LENGTH && nonce@.len() == NONCE_LENGTH,
        draft matches Ok(d) ==> is_draft_of(d, user_id, key@, code, nonce@, verifier@),
        draft matches Err(e) ==> e == ServiceError::CryptoError,
{
    let code_text = decimal(code as i64);
    let owner = decimal(user_id as i64);
    proof {
        lemma_decimal_is_short(code as int);
        lemma_decimal_is_short(user_id as int);
    }
    match encrypt_with_nonce(code_text.as_str(), owner.as_str(), key, nonce) {
        Ok(sealed) => {
            let row = SessionAdd {
                user_id,
                session_verifier: hash_verifier(verifier),
                otp_code_encr: sealed,
            };
            Ok(SessionDraft { row, verifier: hex_encode(verifier) })
        },
        Err(e) => Err(e),
    }
}

/// Makes a new session for `user_id`: draws a passcode of five digits, seals
/// it under `key` bound to the user, and draws the verifier.
///
/// The same steps are taken for every user id, the placeholder of an
/// unknown account included. Fails with `CryptoError` exactly where the key
/// is not 32 bytes.
pub fn session_create(user_id: i32, key: &[u8]) -> (draft: Result<SessionDraft, ServiceError>)
    ensures
        draft is Ok <==> key@.len() == KEY_LENGTH,
        draft matches Ok(d) ==> is_new_session(d, user_id, key@),
        draft matches Err(e) ==> e == ServiceError::CryptoError,
{
    let code = random_in_range(OTP_MIN, OTP_END);
    let nonce = random_bytes(NONCE_LENGTH);
    let verifier = random_bytes(VERIFIER_LENGTH);
    session_draft(user_id, key, code, nonce.as_slice(), verifier.as_slice())
}

/// The token that the client keeps for a stored session.
pub fn client_token(
    session_id: i32,
    draft: SessionDraft,
    master_key_hash: Option<String>,
) -> (token: Session)
    ensures
        token.session_id == session_id,
        token.session_verifier == draft.verifier,
        token.master_key_hash == master_key_hash,
{
    Session { session_id, session_verifier: draft.verifier, master_key_hash }
}

/// A session as the store holds it right after it was stored under `id`:
/// not confirmed, no miss counted, passcode not sent.
pub open spec fn pending_session(id: i32, row: SessionAdd) -> UserSession {
    UserSession {
        id,
        user_id: row.user_id,
        session_verifier: row.session_verifier,
        otp_code_confirmed: false,
        otp_code_encrypted: row.otp_code_encr,
        otp_code_attempts: 0,
        otp_code_sent: false,
    }
}

/// The session that the store holds for a row that it has just stored
/// under `id`: every session starts pending.
pub fn stored_session(id: i32, row: SessionAdd) -> (session: UserSession)
    ensures
        session == pending_session(id, row),
{
    UserSession {
        id,
        user_id: row.user_id,
        session_verifier: row.session_verifier,
        otp_code_confirmed: false,
        otp_code_encrypted: row.otp_code_encr,
        otp_code_attempts: 0,
        otp_code_sent: false,
    }
}

/// The digest that a token's verifier stands for, if the verifier is
/// hexadecimal text.
pub open spec fn claimed_digest(token_verifier: Seq<char>) -> Option<Seq<char>> {
    let bytes = vstd::utf8::encode_utf8(token_verifier);
    if is_hex(bytes) {
        Some(verifier_digest(unhex(bytes)))
    } else {
        None
    }
}

/// Turns the token of a request into the session that it claims: the
/// verifier is read from hexadecimal and replaced by its digest.
///
/// A verifier that is not hexadecimal text makes the request
/// `Unauthorized`.
pub fn session_from_token(token: Session) -> (claimed: Result<Session, ServiceError>)
    ensures
        match claimed {
            Ok(s) => claimed_digest(token.session_verifier@) == Some(s.session_verifier@)
                && s.session_id == token.session_id && s.master_key_hash == token.master_key_hash,
            Err(e) => e == ServiceError::Unauthorized && claimed_digest(token.session_verifier@)
                is None,
        },
{
    match hex_decode(token.session_verifier.as_str().as_bytes()) {
        Some(verifier) => Ok(
            Session {
                session_id: token.session_id,
                session_verifier: hash_verifier(verifier.as_slice()),
                master_key_hash: token.master_key_hash,
            },
        ),
        None => Err(ServiceError::Unauthorized),
    }
}

/// Keeps the stored session that was found for a request only if its
/// digest is the one that the request claims.
///
/// The digests are compared over their whole length without an early exit.
pub fn find_user_by_session(
    session: &Session,
    found: Option<UserSession>,
) -> (kept: Option<UserSession>)
    ensures
        kept == match found {
            Some(row) => if row.session_verifier@ == session.session_verifier@ {
                Some(row)
            } else {
                None
            },
            None => None,
        },
{
    match found {
        Some(row) => {
            if constant_time_compare(
                session.session_verifier.as_str(),
                row.session_verifier.as_str(),
            ) {
                Some(row)
            } else {
                None
            }
        },
        None => None,
    }
}

/// Whether a request with `token_verifier` is a request of the stored
/// session `found`: the digest of the verifier is the stored one.
pub open spec fn is_authentic(token_verifier: Seq<char>, found: Option<UserSession>) -> bool {
    found matches Some(row) && claimed_digest(token_verifier) == Some(row.session_verifier@)
}

/// Validates the token of a request against the stored session that was
/// found for it.
///
/// The request is authentic exactly when the SHA-256 digest of the token's
/// verifier is the stored digest. A token that cannot be read, a session
/// that is not there and a digest that differs all give `Unauthorized`, and
/// nothing tells them apart.
pub fn validate(
    token: Session,
    found: Option<UserSession>,
) -> (session: Result<UserSession, ServiceError>)
    ensures
        match session {
            Ok(row) => is_authentic(token.session_verifier@, found) && found == Some(row),
            Err(e) => e == ServiceError::Unauthorized && !is_authentic(
                token.session_verifier@,
                found,
            ),
        },
{
    match session_from_token(token) {
        Ok(claimed) => match find_user_by_session(&claimed, found) {
            Some(row) => Ok(row),
            None => Err(ServiceError::Unauthorized),
        },
        Err(e) => Err(e),
    }
}

/// A token made from a verifier is authentic for a stored session exactly
/// when the store holds the digest of that verifier.
pub proof fn lemma_validate_by_digest(
    token_verifier: Seq<char>,
    verifier: Seq<u8>,
    row: UserSession,
)
    requires
        token_verifier == hex_text(verifier),
    ensures
        is_authentic(token_verifier, Some(row)) <==> row.session_verifier@ == verifier_digest(
            verifier,
        ),
        claimed_digest(token_verifier) == Some(verifier_digest(verifier)),
{
    lemma_text_bytes(verifier);
    lemma_unhex_hex(verifier);
}

/// A token made from a verifier whose SHA-256 digest is not the one that
/// the store holds is not authentic. Whether two verifiers have the same
/// digest is SHA-256's to say; where they have not, nothing else lets the
/// token pass.
pub proof fn lemma_other_digest_is_refused(verifier: Seq<u8>, other: Seq<u8>, row: UserSession)
    requires
        row.session_verifier@ == verifier_digest(verifier),
        sha256(other) != sha256(verifier),
    ensures
        !is_authentic(hex_text(other), Some(row)),
{
    lemma_validate_by_digest(hex_text(other), other, row);
    if is_authentic(hex_text(other), Some(row)) {
        lemma_hex_injective(sha256(other), sha256(verifier));
    }
}

} // verus!
