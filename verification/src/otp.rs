//! The confirmation of a session by a passcode sent by mail.
//!
//! A session starts with its passcode not sent. A request for the passcode
//! sends it once. A submitted passcode is judged once: after a miss, every
//! further submission is turned away before it is looked at.

use vstd::prelude::*;
use crate::encryption::{decrypt, opened_text};
use crate::errors::{ServiceError, STATUS_UNAUTHORIZED};
use crate::mail::{otp_mail, otp_message, Message, MessageView};
use crate::model::{UserMail, UserSession};
use crate::text::{decimal, decimal_text};

verus! {

/// What became of a submitted passcode.
#[derive(Debug, Clone, Copy, PartialEq, Eq, Structural)]
pub enum OtpOutcome {
    /// The passcode was right; the session is confirmed.
    Accepted,
    /// The passcode was wrong; the miss was counted.
    Rejected,
    /// There was a miss before: the passcode was not looked at.
    Retry,
    /// The misses are over the limit: the session is given up.
    Locked,
}

pub const STATUS_ACCEPTED: u16 = 202;

impl OtpOutcome {
    /// The HTTP status that answers the outcome.
    pub open spec fn status(self) -> u16 {
        match self {
            OtpOutcome::Accepted => STATUS_ACCEPTED,
            _ => STATUS_UNAUTHORIZED,
        }
    }

    /// The text that the answer carries.
    pub open spec fn body(self) -> Seq<char> {
        match self {
            OtpOutcome::Accepted => "Accepted"@,
            OtpOutcome::Rejected => "Too Much Attempts "@,
            OtpOutcome::Retry => "OTP failure: Retry"@,
            OtpOutcome::Locked => "Authentication failure"@,
        }
    }

    /// The status and the text that answer the outcome.
    pub fn response(&self) -> (answer: (u16, &'static str))
        ensures
            answer.0 == self.status(),
            answer.1@ == self.body(),
    {
        match self {
            OtpOutcome::Accepted => (STATUS_ACCEPTED, "Accepted"),
            OtpOutcome::Rejected => (STATUS_UNAUTHORIZED, "Too Much Attempts "),
            OtpOutcome::Retry => (STATUS_UNAUTHORIZED, "OTP failure: Retry"),
            OtpOutcome::Locked => (STATUS_UNAUTHORIZED, "Authentication failure"),
        }
    }
}

/// The passcode of a session, as opening its sealed form under `key` gives
/// it; nothing where the sealed form does not open for the session's user.
pub open spec fn stored_code(session: UserSession, key: Seq<u8>) -> Option<Seq<char>> {
    opened_text(session.otp_code_encrypted@, decimal_text(session.user_id as int), key)
}

/// What turns a submission away before the passcode is looked at: a miss
/// before it, or, where there was none, a count over the limit.
pub open spec fn gate(attempts: u32, max_otp_attempts: i32) -> Option<OtpOutcome> {
    if attempts > 0 {
        Some(OtpOutcome::Retry)
    } else if attempts > max_otp_attempts {
        Some(OtpOutcome::Locked)
    } else {
        None
    }
}

/// The outcome of comparing the passcode `code` with what was submitted,
/// and the session after it: confirmed with the count back at zero, or with
/// one more miss.
pub open spec fn settled(
    session: UserSession,
    code: Seq<char>,
    submitted: Seq<char>,
) -> (OtpOutcome, UserSession) {
    if code == submitted {
        (
            OtpOutcome::Accepted,
            UserSession { otp_code_confirmed: true, otp_code_attempts: 0, ..session },
        )
    } else {
        (
            OtpOutcome::Rejected,
            UserSession {
                otp_code_attempts: (session.otp_code_attempts + 1) as u32,
                ..session
            },
        )
    }
}

/// What a submission comes to: the outcome and the session after it, or the
/// failure to open the stored passcode.
pub open spec fn judged(
    session: UserSession,
    submitted: Seq<char>,
    key: Seq<u8>,
    max_otp_attempts: i32,
) -> Result<(OtpOutcome, UserSession), ServiceError> {
    match gate(session.otp_code_attempts, max_otp_attempts) {
        Some(outcome) => Ok((outcome, session)),
        None => match stored_code(session, key) {
            Some(code) => Ok(settled(session, code, submitted)),
            None => Err(ServiceError::CryptoError),
        },
    }
}

/// Tells whether a submission is turned away unseen, and how.
pub fn check_gate(attempts: u32, max_otp_attempts: i32) -> (turned: Option<OtpOutcome>)
    ensures
        turned == gate(attempts, max_otp_attempts),
{
    if attempts > 0 {
        Some(OtpOutcome::Retry)
    } else if (attempts as i64) > (max_otp_attempts as i64) {
        Some(OtpOutcome::Locked)
    } else {
        None
    }
}

/// Compares the passcode of a session with the submitted one, as plain
/// text, and moves the session on: a match confirms it and clears the
/// count, a miss is counted.
pub fn settle_otp(
    session: &mut UserSession,
    code: &str,
    submitted: &str,
) -> (outcome: OtpOutcome)
    requires
        old(session).otp_code_attempts < u32::MAX,
    ensures
        (outcome, *final(session)) == settled(*old(session), code@, submitted@),
{
    if code.to_owned() == submitted.to_owned() {
        session.otp_code_confirmed = true;
        session.otp_code_attempts = 0;
        OtpOutcome::Accepted
    } else {
        session.otp_code_attempts = session.otp_code_attempts + 1;
        OtpOutcome::Rejected
    }
}

/// Judges a submitted passcode against a session, and moves the session on.
///
/// After a miss the answer is `Retry`, whatever was submitted: the stored
/// passcode is not even opened. With no miss but the count over
/// `max_otp_attempts` the answer is `Locked`. Otherwise the stored passcode
/// is opened, bound to the session's user, and compared. A passcode that
/// does not open is a `CryptoError`, never a miss.
pub fn confirm_otp(
    session: &mut UserSession,
    submitted: &str,
    key: &[u8],
    max_otp_attempts: i32,
) -> (outcome: Result<OtpOutcome, ServiceError>)
    ensures
        match judged(*old(session), submitted@, key@, max_otp_attempts) {
            Ok((verdict, next)) => outcome == Ok::<OtpOutcome, ServiceError>(verdict)
                && *final(session) == next,
            Err(e) => outcome == Err::<OtpOutcome, ServiceError>(e) && *final(session) == *old(
                session,
            ),
        },
{
    match check_gate(session.otp_code_attempts, max_otp_attempts) {
        Some(turned) => Ok(turned),
        None => {
            let owner = decimal(session.user_id as i64);
            match decrypt(session.otp_code_encrypted.as_str(), owner.as_str(), key) {
                Ok(code) => Ok(settle_otp(session, code.as_str(), submitted)),
                Err(e) => Err(e),
            }
        },
    }
}

/// The address of a looked-up user, if there is one.
pub open spec fn address_of(recipient: Option<UserMail>) -> Option<Seq<char>> {
    match recipient {
        Some(user) => Some(user.email@),
        None => None,
    }
}

/// What a request for the passcode comes to: the session after it, and the
/// message to send, if any, or the failure to open the stored passcode.
///
/// A session whose passcode was sent stays as it is and sends nothing. Any
/// other session is marked as sent, whatever follows. No message goes to
/// the placeholder user, nor to a user without an address.
pub open spec fn requested(
    session: UserSession,
    recipient: Option<Seq<char>>,
    key: Seq<u8>,
    invalid_user_id: i32,
) -> (UserSession, Result<Option<MessageView>, ServiceError>) {
    if session.otp_code_sent {
        (session, Ok(None))
    } else {
        let next = UserSession { otp_code_sent: true, ..session };
        match stored_code(session, key) {
            None => (next, Err(ServiceError::CryptoError)),
            Some(code) => match recipient {
                Some(email) if session.user_id != invalid_user_id => (
                    next,
                    Ok(Some(otp_mail(email, code))),
                ),
                _ => (next, Ok(None)),
            },
        }
    }
}

/// The texts of an optional message.
pub open spec fn view_of(message: Option<Message>) -> Option<MessageView> {
    match message {
        Some(m) => Some(m@),
        None => None,
    }
}

/// Serves a request for the passcode of a session: decides whether a
/// message goes out, writes it, and marks the session.
///
/// `recipient` is the address that was looked up for the session's user,
/// if the user has one. The caller hands the returned message to the mail
/// transport and stores the mark; a delivery that fails later does not take
/// the mark back.
pub fn email_otp(
    session: &mut UserSession,
    recipient: Option<UserMail>,
    key: &[u8],
    invalid_user_id: i32,
) -> (message: Result<Option<Message>, ServiceError>)
    ensures
        *final(session) == requested(
            *old(session),
            address_of(recipient),
            key@,
            invalid_user_id,
        ).0,
        match requested(*old(session), address_of(recipient), key@, invalid_user_id).1 {
            Ok(mail) => message matches Ok(m) && view_of(m) == mail,
            Err(e) => message matches Err(f) && f == e,
        },
{
    if session.otp_code_sent {
        return Ok(None);
    }
    session.otp_code_sent = true;
    let owner = decimal(session.user_id as i64);
    let code = match decrypt(session.otp_code_encrypted.as_str(), owner.as_str(), key) {
        Ok(code) => code,
        Err(e) => {
            return Err(e);
        },
    };
    match recipient {
        Some(user) => {
            if session.user_id != invalid_user_id {
                Ok(Some(otp_message(user.email, code.as_str())))
            } else {
                Ok(None)
            }
        },
        None => Ok(None),
    }
}

/// With no miss so far and a limit that is not negative, submitting the
/// stored passcode is accepted: the session is confirmed and its count is
/// zero.
pub proof fn lemma_right_code_is_accepted(
    session: UserSession,
    submitted: Seq<char>,
    key: Seq<u8>,
    max_otp_attempts: i32,
)
    requires
        session.otp_code_attempts == 0,
        max_otp_attempts >= 0,
        stored_code(session, key) == Some(submitted),
    ensures
        judged(session, submitted, key, max_otp_attempts) matches Ok((outcome, next))
            && outcome == OtpOutcome::Accepted && next.otp_code_confirmed
            && next.otp_code_attempts == 0 && next == (UserSession {
            otp_code_confirmed: true,
            ..session
        }),
{
}

/// With no miss so far and a limit that is not negative, submitting
/// anything but the stored passcode is rejected, and the count becomes one.
pub proof fn lemma_wrong_code_is_rejected(
    session: UserSession,
    submitted: Seq<char>,
    key: Seq<u8>,
    max_otp_attempts: i32,
)
    requires
        session.otp_code_attempts == 0,
        max_otp_attempts >= 0,
        stored_code(session, key) matches Some(code) && code != submitted,
    ensures
        judged(session, submitted, key, max_otp_attempts) matches Ok((outcome, next))
            && outcome == OtpOutcome::Rejected && next.otp_code_attempts == 1 && next == (
        UserSession { otp_code_attempts: 1, ..session }),
{
}

/// After a miss, whatever is submitted is answered with `Retry` and the
/// session stays as it is. The stored passcode has no part in it: the
/// answer is the same where it would not even open.
pub proof fn lemma_retry_after_a_miss(
    session: UserSession,
    submitted: Seq<char>,
    key: Seq<u8>,
    max_otp_attempts: i32,
)
    requires
        session.otp_code_attempts > 0,
    ensures
        judged(session, submitted, key, max_otp_attempts) == Ok::<
            (OtpOutcome, UserSession),
            ServiceError,
        >((OtpOutcome::Retry, session)),
{
}

/// With no miss so far, a count over the limit is answered with `Locked`,
/// whatever is submitted, and the session stays as it is.
pub proof fn lemma_locked_over_the_limit(
    session: UserSession,
    submitted: Seq<char>,
    key: Seq<u8>,
    max_otp_attempts: i32,
)
    requires
        session.otp_code_attempts == 0,
        session.otp_code_attempts > max_otp_attempts,
    ensures
        judged(session, submitted, key, max_otp_attempts) == Ok::<
            (OtpOutcome, UserSession),
            ServiceError,
        >((OtpOutcome::Locked, session)),
{
}

/// With no miss so far and a limit that is not negative, a stored passcode
/// that does not open for the session's user is a `CryptoError`, whatever
/// is submitted: it is neither accepted nor counted as a miss.
pub proof fn lemma_unopened_code_is_an_error(
    session: UserSession,
    submitted: Seq<char>,
    key: Seq<u8>,
    max_otp_attempts: i32,
)
    requires
        session.otp_code_attempts == 0,
        max_otp_attempts >= 0,
        stored_code(session, key) is None,
    ensures
        judged(session, submitted, key, max_otp_attempts) == Err::<
            (OtpOutcome, UserSession),
            ServiceError,
        >(ServiceError::CryptoError),
{
}

/// A submission never lowers the count of misses, but for the one that is
/// accepted, which clears it. Only the flag of confirmation and the count
/// ever change.
pub proof fn lemma_count_never_falls(
    session: UserSession,
    submitted: Seq<char>,
    key: Seq<u8>,
    max_otp_attempts: i32,
)
    requires
        judged(session, submitted, key, max_otp_attempts) is Ok,
    ensures
        ({
            let (outcome, next) = judged(session, submitted, key, max_otp_attempts)->Ok_0;
            &&& outcome == OtpOutcome::Accepted ==> next.otp_code_attempts == 0
                && next.otp_code_confirmed
            &&& outcome != OtpOutcome::Accepted ==> next.otp_code_attempts
                >= session.otp_code_attempts && next.otp_code_confirmed
                == session.otp_code_confirmed
            &&& next == (UserSession {
                otp_code_confirmed: next.otp_code_confirmed,
                otp_code_attempts: next.otp_code_attempts,
                ..session
            })
        }),
{
}

/// Of two requests for the passcode of one session, the second sends
/// nothing and changes nothing: whatever the first came to, the session is
/// marked as sent after it.
pub proof fn lemma_passcode_is_sent_once(
    session: UserSession,
    first_recipient: Option<Seq<char>>,
    second_recipient: Option<Seq<char>>,
    key: Seq<u8>,
    invalid_user_id: i32,
)
    ensures
        ({
            let first = requested(session, first_recipient, key, invalid_user_id);
            let second = requested(first.0, second_recipient, key, invalid_user_id);
            &&& first.0.otp_code_sent
            &&& second.0 == first.0
            &&& second.1 == Ok::<Option<MessageView>, ServiceError>(None)
        }),
{
}

/// No message goes to the placeholder user, whatever address was found.
pub proof fn lemma_placeholder_gets_no_mail(
    session: UserSession,
    recipient: Option<Seq<char>>,
    key: Seq<u8>,
)
    ensures
        !(requested(session, recipient, key, session.user_id).1 matches Ok(Some(_))),
{
}

} // verus!
