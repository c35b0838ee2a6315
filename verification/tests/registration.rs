use otp_auth::password::verify_hash;
use otp_auth::registration::{
    registration_step, Registration, RegistrationFault, RegistrationStep,
};

fn form(email: &str, password: &str, confirm: &str) -> Registration {
    Registration {
        email: email.to_string(),
        password: password.to_string(),
        confirm_password: confirm.to_string(),
        h_captcha_response: None,
    }
}

#[test]
fn a_proper_form_has_no_faults() {
    assert_eq!(form("bob@example.com", "hunter22", "hunter22").validate(), vec![]);
    assert_eq!(form("a.b+c@sub.example.org", "a longer password", "a longer password").validate(), vec![]);
}

#[test]
fn an_address_that_is_none_is_a_fault() {
    for email in ["", "bob", "bob@", "@example.com", "bob example@example.com", "bob@exa mple.com"] {
        assert_eq!(
            form(email, "hunter22", "hunter22").validate(),
            vec![RegistrationFault::Email],
            "{:?}",
            email
        );
    }
}

#[test]
fn a_password_under_eight_characters_is_a_fault() {
    assert_eq!(
        form("bob@example.com", "hunter2", "hunter2").validate(),
        vec![RegistrationFault::PasswordTooShort]
    );
    assert_eq!(
        form("bob@example.com", "", "").validate(),
        vec![RegistrationFault::PasswordTooShort]
    );
}

#[test]
fn password_length_is_counted_in_characters() {
    assert_eq!(
        form("bob@example.com", "pässwör", "pässwör").validate(),
        vec![RegistrationFault::PasswordTooShort]
    );
    assert_eq!(form("bob@example.com", "pässwörd", "pässwörd").validate(), vec![]);
}

#[test]
fn a_repetition_that_differs_is_a_fault() {
    assert_eq!(
        form("bob@example.com", "hunter22", "hunter23").validate(),
        vec![RegistrationFault::PasswordMismatch]
    );
    assert_eq!(
        form("bob@example.com", "hunter22", "Hunter22").validate(),
        vec![RegistrationFault::PasswordMismatch]
    );
}

#[test]
fn faults_come_in_the_order_of_the_fields() {
    assert_eq!(
        form("nobody", "short", "other").validate(),
        vec![
            RegistrationFault::Email,
            RegistrationFault::PasswordTooShort,
            RegistrationFault::PasswordMismatch
        ]
    );
    assert_eq!(
        form("bob@example.com", "short", "other").validate(),
        vec![RegistrationFault::PasswordTooShort, RegistrationFault::PasswordMismatch]
    );
}

#[test]
fn faults_are_shown_at_their_fields() {
    assert_eq!(RegistrationFault::Email.field(), "email");
    assert_eq!(RegistrationFault::Email.message(), "Email is not valid");
    assert_eq!(RegistrationFault::PasswordTooShort.field(), "password");
    assert_eq!(RegistrationFault::PasswordTooShort.message(), "Password is too short");
    assert_eq!(RegistrationFault::PasswordMismatch.field(), "confirm_password");
    assert_eq!(RegistrationFault::PasswordMismatch.message(), "The passwords don't match");
    assert_eq!(RegistrationFault::Captcha.field(), "confirm_password");
    assert_eq!(RegistrationFault::Captcha.message(), "Invalid hCaptcha");
}

#[test]
fn an_unsolved_challenge_rejects_the_form_unseen() {
    assert_eq!(
        registration_step(&form("bob@example.com", "hunter22", "hunter22"), false, true),
        Ok(RegistrationStep::Rejected(vec![RegistrationFault::Captcha]))
    );
    assert_eq!(
        registration_step(&form("nobody", "x", "y"), false, true),
        Ok(RegistrationStep::Rejected(vec![RegistrationFault::Captcha]))
    );
}

#[test]
fn a_form_with_faults_is_rejected_with_them() {
    assert_eq!(
        registration_step(&form("nobody", "hunter22", "hunter22"), true, true),
        Ok(RegistrationStep::Rejected(vec![RegistrationFault::Email]))
    );
}

#[test]
fn a_proper_form_is_stored_in_lower_case_with_a_hash() {
    match registration_step(&form("Bob@Example.COM", "hunter22", "hunter22"), true, true) {
        Ok(RegistrationStep::Store(user)) => {
            assert_eq!(user.email, "bob@example.com");
            assert_ne!(user.hashed_password, "hunter22");
            assert!(user.hashed_password.starts_with("$2b$"));
            assert!(verify_hash("hunter22", &user.hashed_password, true));
        }
        other => panic!("{:?}", other),
    }
}

#[test]
fn a_proper_form_is_hashed_as_the_service_is_set() {
    match registration_step(&form("bob@example.com", "hunter22", "hunter22"), true, false) {
        Ok(RegistrationStep::Store(user)) => {
            assert!(user.hashed_password.starts_with("$argon2"));
            assert!(verify_hash("hunter22", &user.hashed_password, false));
        }
        other => panic!("{:?}", other),
    }
}
