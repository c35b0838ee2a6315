//! Registering an account: what makes the form acceptable, and the session
//! that follows.
//!
//! A registration ends in the same making of a session as a login does. An
//! account that exists already when someone registers it again must not
//! show in what the client sees.

use vstd::prelude::*;
use vstd::string::StrSliceExecFns;
use crate::errors::ServiceError;
use crate::encryption::KEY_LENGTH;
use crate::model::{CreateUser, CreatedUser};
use crate::password::{
    hashing_succeeds, is_argon2_format, is_hash_of, is_hashing_failure, password_hash,
    password_matches,
};
use crate::session::{is_new_session, session_create, SessionDraft};

verus! {

/// A registration as the form sends it.
#[derive(Debug, Clone, PartialEq, Eq, Default)]
pub struct Registration {
    pub email: String,
    pub password: String,
    pub confirm_password: String,
    pub h_captcha_response: Option<String>,
}

/// The least number of characters of a password.
pub const MIN_PASSWORD_LENGTH: usize = 8;

/// What is wrong with a registration.
#[derive(Debug, Clone, Copy, PartialEq, Eq, Structural)]
pub enum RegistrationFault {
    /// The address is no mail address.
    Email,
    /// The password has fewer than eight characters.
    PasswordTooShort,
    /// The password and its repetition differ.
    PasswordMismatch,
    /// The challenge was not solved.
    Captcha,
}

impl RegistrationFault {
    /// The field of the form that the fault is shown at.
    pub open spec fn field_name(self) -> Seq<char> {
        match self {
            RegistrationFault::Email => "email"@,
            RegistrationFault::PasswordTooShort => "password"@,
            RegistrationFault::PasswordMismatch => "confirm_password"@,
            RegistrationFault::Captcha => "confirm_password"@,
        }
    }

    /// What the form says of the fault.
    pub open spec fn text(self) -> Seq<char> {
        match self {
            RegistrationFault::Email => "Email is not valid"@,
            RegistrationFault::PasswordTooShort => "Password is too short"@,
            RegistrationFault::PasswordMismatch => "The passwords don't match"@,
            RegistrationFault::Captcha => "Invalid hCaptcha"@,
        }
    }

    /// The field of the form that the fault is shown at.
    pub fn field(&self) -> (name: &'static str)
        ensures
            name@ == self.field_name(),
    {
        match self {
            RegistrationFault::Email => "email",
            RegistrationFault::PasswordTooShort => "password",
            RegistrationFault::PasswordMismatch => "confirm_password",
            RegistrationFault::Captcha => "confirm_password",
        }
    }

    /// What the form says of the fault.
    pub fn message(&self) -> (said: &'static str)
        ensures
            said@ == self.text(),
    {
        match self {
            RegistrationFault::Email => "Email is not valid",
            RegistrationFault::PasswordTooShort => "Password is too short",
            RegistrationFault::PasswordMismatch => "The passwords don't match",
            RegistrationFault::Captcha => "Invalid hCaptcha",
        }
    }
}

/// Whether the `validator` crate takes the text for a mail address.
pub uninterp spec fn email_is_valid(email: Seq<char>) -> bool;

/// The text in lower case, as the standard library writes it.
pub uninterp spec fn lowercase_text(text: Seq<char>) -> Seq<char>;

/// Calls `ValidateEmail::validate_email` of the `validator` crate on the
/// text. The answer depends on the text alone.
#[verifier::external_body]
pub(crate) fn validate_email(email: &str) -> (valid: bool)
    ensures
        valid == email_is_valid(email@),
{
    validator::ValidateEmail::validate_email(&email)
}

/// Calls `str::to_lowercase`. The result depends on the text alone.
#[verifier::external_body]
pub(crate) fn to_lowercase(text: &str) -> (lower: String)
    ensures
        lower@ == lowercase_text(text@),
{
    text.to_lowercase()
}

/// The faults of a form, in the order of its fields: the address, the
/// length of the password, the repetition.
pub open spec fn faults_of(form: Registration) -> Seq<RegistrationFault> {
    let email = if email_is_valid(form.email@) {
        Seq::<RegistrationFault>::empty()
    } else {
        seq![RegistrationFault::Email]
    };
    let length = if form.password@.len() >= MIN_PASSWORD_LENGTH {
        Seq::<RegistrationFault>::empty()
    } else {
        seq![RegistrationFault::PasswordTooShort]
    };
    let repetition = if form.confirm_password@ == form.password@ {
        Seq::<RegistrationFault>::empty()
    } else {
        seq![RegistrationFault::PasswordMismatch]
    };
    email + length + repetition
}

impl Registration {
    /// Finds the faults of the form. A form without faults has a mail
    /// address, a password of eight characters or more, and the same
    /// password repeated.
    pub fn validate(&self) -> (faults: Vec<RegistrationFault>)
        ensures
            faults@ == faults_of(*self),
    {
        let mut faults: Vec<RegistrationFault> = Vec::new();
        if !validate_email(self.email.as_str()) {
            faults.push(RegistrationFault::Email);
        }
        if self.password.as_str().unicode_len() < MIN_PASSWORD_LENGTH {
            faults.push(RegistrationFault::PasswordTooShort);
        }
        if !(self.confirm_password == self.password) {
            faults.push(RegistrationFault::PasswordMismatch);
        }
        assert(faults@ =~= faults_of(*self));
        faults
    }
}

/// What is to be done with a registration.
#[derive(Debug, Clone, PartialEq, Eq)]
pub enum RegistrationStep {
    /// The form goes back to the client with its faults.
    Rejected(Vec<RegistrationFault>),
    /// The account is to be stored.
    Store(CreateUser),
}

/// `step` is what a registration comes to, for a form and the outcome of
/// the challenge that came with it.
pub open spec fn is_registration_step(
    form: Registration,
    captcha_solved: bool,
    use_bcrypt: bool,
    step: Result<RegistrationStep, ServiceError>,
) -> bool {
    if !captcha_solved {
        step matches Ok(RegistrationStep::Rejected(faults)) && faults@
            == seq![RegistrationFault::Captcha]
    } else if faults_of(form).len() > 0 {
        step matches Ok(RegistrationStep::Rejected(faults)) && faults@ == faults_of(form)
    } else {
        match step {
            Ok(RegistrationStep::Store(user)) => user.email@ == lowercase_text(form.email@)
                && is_hash_of(form.password@, use_bcrypt, Some(user.hashed_password@))
                && password_matches(form.password@, user.hashed_password@) && is_argon2_format(
                user.hashed_password@,
            ) == !use_bcrypt,
            Ok(RegistrationStep::Rejected(_)) => false,
            Err(e) => is_hashing_failure(e) && is_hash_of(form.password@, use_bcrypt, None),
        }
    }
}

/// Decides what is to be done with a registration.
///
/// A challenge that was not solved rejects the form before it is looked at.
/// A form with faults is rejected with them. Otherwise the account is to be
/// stored under the address in lower case, with the password hashed, which
/// fails only with Argon2 and a password of more than 2^32 - 1 bytes.
pub fn registration_step(
    form: &Registration,
    captcha_solved: bool,
    use_bcrypt: bool,
) -> (step: Result<RegistrationStep, ServiceError>)
    ensures
        is_registration_step(*form, captcha_solved, use_bcrypt, step),
{
    if !captcha_solved {
        let mut faults: Vec<RegistrationFault> = Vec::new();
        faults.push(RegistrationFault::Captcha);
        assert(faults@ =~= seq![RegistrationFault::Captcha]);
        return Ok(RegistrationStep::Rejected(faults));
    }
    let faults = form.validate();
    if faults.len() > 0 {
        return Ok(RegistrationStep::Rejected(faults));
    }
    match password_hash(form.password.as_str(), use_bcrypt) {
        Ok(hashed_password) => Ok(
            RegistrationStep::Store(
                CreateUser { email: to_lowercase(form.email.as_str()), hashed_password },
            ),
        ),
        Err(e) => Err(e),
    }
}

/// With the challenge solved, a form without faults is stored, under the
/// address in lower case and with a hash that verifies for the password:
/// always with bcrypt, and with Argon2 unless the password is too long.
pub proof fn lemma_proper_form_is_stored(
    form: Registration,
    use_bcrypt: bool,
    step: Result<RegistrationStep, ServiceError>,
)
    requires
        is_registration_step(form, true, use_bcrypt, step),
        faults_of(form).len() == 0,
        hashing_succeeds(form.password@, use_bcrypt),
    ensures
        step matches Ok(RegistrationStep::Store(user)) && user.email@ == lowercase_text(
            form.email@,
        ) && password_matches(form.password@, user.hashed_password@),
{
}

/// The user id that stands for an account which is not there.
pub const INVALID_USER_ID: i32 = -1;

/// The user that a registration's session belongs to: the user that was
/// stored, or the placeholder where the account could not be stored.
pub open spec fn session_owner(registered: Option<CreatedUser>, invalid_user_id: i32) -> i32 {
    match registered {
        Some(user) => user.id,
        None => invalid_user_id,
    }
}

/// Makes the session that follows a registration.
///
/// Where the account could not be stored, most likely because it exists
/// already, a session is made all the same, for the placeholder user: the
/// client sees no difference. Fails with `CryptoError` exactly where the
/// key is not 32 bytes.
pub fn process_registration(
    registered: Option<CreatedUser>,
    invalid_user_id: i32,
    key: &[u8],
) -> (draft: Result<SessionDraft, ServiceError>)
    ensures
        draft is Ok <==> key@.len() == KEY_LENGTH,
        draft matches Ok(d) ==> is_new_session(
            d,
            session_owner(registered, invalid_user_id),
            key@,
        ),
        draft matches Err(e) ==> e == ServiceError::CryptoError,
{
    let owner = match registered {
        Some(user) => user.id,
        None => invalid_user_id,
    };
    session_create(owner, key)
}

} // verus!
