//! From registration to a confirmed session: what the parts of the crate
//! come to when one follows the other.

use vstd::prelude::*;
use crate::encryption::KEY_LENGTH;
use crate::errors::ServiceError;
use crate::login::{is_login_outcome, LoginOutcome};
use crate::mail::{otp_mail, MessageView};
use crate::model::{FindUser, UserSession};
use crate::otp::{judged, requested, OtpOutcome};
use crate::password::{hashing_succeeds, lemma_hash_verifies};
use crate::registration::{
    faults_of, is_registration_step, lowercase_text, Registration, RegistrationStep,
};
use crate::session::{
    is_authentic, is_draft_of, is_new_session, lemma_validate_by_digest, pending_session,
    SessionDraft, OTP_END, OTP_MIN,
};
use crate::text::{decimal_text, lemma_five_digits};

verus! {

/// Who has registered can log in. With the challenge solved, a form
/// without faults is stored with a hash of its password, and a login with
/// that password, against the account as it was stored under `id`, issues a
/// new session of that user.
pub proof fn lemma_registered_user_can_log_in(
    form: Registration,
    use_bcrypt: bool,
    step: Result<RegistrationStep, ServiceError>,
    id: i32,
    key: Seq<u8>,
    outcome: Result<LoginOutcome, ServiceError>,
)
    requires
        faults_of(form).len() == 0,
        hashing_succeeds(form.password@, use_bcrypt),
        is_registration_step(form, true, use_bcrypt, step),
        key.len() == KEY_LENGTH,
        step matches Ok(RegistrationStep::Store(user)) ==> is_login_outcome(
            Some(FindUser { id, hashed_password: user.hashed_password }),
            form.password@,
            key,
            outcome,
        ),
    ensures
        step matches Ok(RegistrationStep::Store(user)) && user.email@ == lowercase_text(
            form.email@,
        ),
        outcome matches Ok(LoginOutcome::SessionIssued(draft)) && is_new_session(draft, id, key),
{
    if let Ok(RegistrationStep::Store(user)) = step {
        lemma_hash_verifies(form.password@, use_bcrypt, user.hashed_password@);
    }
}

/// The way of a new session, once it is stored under `id`.
///
/// The token made from the draft is authentic for the stored session. The
/// passcode is five digits. The first request for it sends it to the
/// user's address and marks the session; a second request sends nothing.
/// Submitting the passcode then confirms the session. Submitting anything
/// else is a miss, and after the miss even the right passcode is turned
/// away.
pub proof fn lemma_way_of_a_session(
    draft: SessionDraft,
    id: i32,
    user_id: i32,
    key: Seq<u8>,
    code: u32,
    nonce: Seq<u8>,
    verifier: Seq<u8>,
    email: Seq<char>,
    wrong: Seq<char>,
    invalid_user_id: i32,
    max_otp_attempts: i32,
)
    requires
        is_draft_of(draft, user_id, key, code, nonce, verifier),
        OTP_MIN <= code < OTP_END,
        user_id != invalid_user_id,
        max_otp_attempts >= 0,
        wrong != decimal_text(code as int),
    ensures
        ({
            let passcode = decimal_text(code as int);
            let pending = pending_session(id, draft.row);
            let first = requested(pending, Some(email), key, invalid_user_id);
            let sent = first.0;
            let second = requested(sent, Some(email), key, invalid_user_id);
            let missed = UserSession { otp_code_attempts: 1, ..sent };
            &&& is_authentic(draft.verifier@, Some(pending))
            &&& passcode.len() == 5
            &&& forall|i: int| 0 <= i < 5 ==> '0' <= #[trigger] passcode[i] <= '9'
            &&& first.1 == Ok::<Option<MessageView>, ServiceError>(
                Some(otp_mail(email, passcode)),
            )
            &&& sent == (UserSession { otp_code_sent: true, ..pending })
            &&& second.1 == Ok::<Option<MessageView>, ServiceError>(None)
            &&& second.0 == sent
            &&& judged(sent, passcode, key, max_otp_attempts) == Ok::<
                (OtpOutcome, UserSession),
                ServiceError,
            >((OtpOutcome::Accepted, UserSession { otp_code_confirmed: true, ..sent }))
            &&& judged(sent, wrong, key, max_otp_attempts) == Ok::<
                (OtpOutcome, UserSession),
                ServiceError,
            >((OtpOutcome::Rejected, missed))
            &&& judged(missed, passcode, key, max_otp_attempts) == Ok::<
                (OtpOutcome, UserSession),
                ServiceError,
            >((OtpOutcome::Retry, missed))
        }),
{
    let pending = pending_session(id, draft.row);
    lemma_validate_by_digest(draft.verifier@, verifier, pending);
    lemma_five_digits(code as nat);
}

} // verus!
