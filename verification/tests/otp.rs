use otp_auth::encryption::encrypt;
use otp_auth::errors::ServiceError;
use otp_auth::mail::Message;
use otp_auth::model::{UserMail, UserSession};
use otp_auth::otp::{check_gate, confirm_otp, email_otp, settle_otp, OtpOutcome};

fn key() -> Vec<u8> {
    (1u8..33).collect()
}

fn session(code: &str, attempts: u32) -> UserSession {
    UserSession {
        id: 3,
        user_id: 42,
        session_verifier: "d".repeat(64),
        otp_code_confirmed: false,
        otp_code_encrypted: encrypt(code, "42", &key()).unwrap(),
        otp_code_attempts: attempts,
        otp_code_sent: false,
    }
}

fn bob() -> Option<UserMail> {
    Some(UserMail { email: "bob@example.com".to_string() })
}

#[test]
fn right_code_is_accepted() {
    let mut s = session("12345", 0);
    let before = s.clone();
    assert_eq!(confirm_otp(&mut s, "12345", &key(), 3), Ok(OtpOutcome::Accepted));
    assert!(s.otp_code_confirmed);
    assert_eq!(s.otp_code_attempts, 0);
    assert_eq!(s, UserSession { otp_code_confirmed: true, ..before });
}

#[test]
fn wrong_code_is_rejected_and_counted() {
    let mut s = session("12345", 0);
    let before = s.clone();
    assert_eq!(confirm_otp(&mut s, "12346", &key(), 3), Ok(OtpOutcome::Rejected));
    assert!(!s.otp_code_confirmed);
    assert_eq!(s.otp_code_attempts, 1);
    assert_eq!(s, UserSession { otp_code_attempts: 1, ..before });
}

#[test]
fn codes_are_compared_as_plain_text() {
    for near in ["012345", "12345 ", " 12345", "1234", "", "１２３４５", "12345\n"] {
        let mut s = session("12345", 0);
        assert_eq!(confirm_otp(&mut s, near, &key(), 3), Ok(OtpOutcome::Rejected), "{:?}", near);
    }
}

#[test]
fn after_a_miss_every_code_is_turned_away() {
    for code in ["12345", "00000", ""] {
        let mut s = session("12345", 1);
        let before = s.clone();
        assert_eq!(confirm_otp(&mut s, code, &key(), 3), Ok(OtpOutcome::Retry));
        assert_eq!(s, before);
    }
    let mut s = session("12345", u32::MAX);
    assert_eq!(confirm_otp(&mut s, "12345", &key(), 3), Ok(OtpOutcome::Retry));
    assert_eq!(s.otp_code_attempts, u32::MAX);
}

#[test]
fn after_a_miss_the_stored_code_is_not_opened() {
    let mut s = session("12345", 1);
    s.otp_code_encrypted = "not a blob".to_string();
    assert_eq!(confirm_otp(&mut s, "12345", &key(), 3), Ok(OtpOutcome::Retry));
    let mut s = session("12345", 2);
    assert_eq!(confirm_otp(&mut s, "12345", &[0u8; 5], 3), Ok(OtpOutcome::Retry));
}

#[test]
fn retry_comes_before_locked() {
    let mut s = session("12345", 2);
    assert_eq!(confirm_otp(&mut s, "12345", &key(), 1), Ok(OtpOutcome::Retry));
    assert_eq!(check_gate(2, 1), Some(OtpOutcome::Retry));
    assert_eq!(check_gate(1, 0), Some(OtpOutcome::Retry));
}

#[test]
fn over_the_limit_without_a_miss_is_locked() {
    for code in ["12345", "99999"] {
        let mut s = session("12345", 0);
        let before = s.clone();
        assert_eq!(confirm_otp(&mut s, code, &key(), -1), Ok(OtpOutcome::Locked));
        assert_eq!(s, before);
    }
    assert_eq!(check_gate(0, -1), Some(OtpOutcome::Locked));
    assert_eq!(check_gate(0, i32::MIN), Some(OtpOutcome::Locked));
}

#[test]
fn gate_lets_a_first_submission_through() {
    assert_eq!(check_gate(0, 0), None);
    assert_eq!(check_gate(0, 3), None);
    assert_eq!(check_gate(0, i32::MAX), None);
    assert_eq!(check_gate(u32::MAX, i32::MAX), Some(OtpOutcome::Retry));
}

#[test]
fn a_code_that_does_not_open_is_an_error_and_no_miss() {
    let mut s = session("12345", 0);
    s.user_id = 43;
    let before = s.clone();
    assert_eq!(confirm_otp(&mut s, "12345", &key(), 3), Err(ServiceError::CryptoError));
    assert_eq!(s, before);
    let mut s = session("12345", 0);
    s.otp_code_encrypted = "0011:2233".to_string();
    assert_eq!(confirm_otp(&mut s, "12345", &key(), 3), Err(ServiceError::CryptoError));
    assert_eq!(s.otp_code_attempts, 0);
    let mut s = session("12345", 0);
    assert_eq!(confirm_otp(&mut s, "12345", &[7u8; 32], 3), Err(ServiceError::CryptoError));
    assert!(!s.otp_code_confirmed);
}

#[test]
fn settling_counts_each_miss() {
    let mut s = session("12345", 0);
    assert_eq!(settle_otp(&mut s, "12345", "1"), OtpOutcome::Rejected);
    assert_eq!(settle_otp(&mut s, "12345", "2"), OtpOutcome::Rejected);
    assert_eq!(s.otp_code_attempts, 2);
    assert_eq!(settle_otp(&mut s, "12345", "12345"), OtpOutcome::Accepted);
    assert_eq!(s.otp_code_attempts, 0);
    assert!(s.otp_code_confirmed);
}

#[test]
fn outcomes_answer_as_the_service_does() {
    assert_eq!(OtpOutcome::Accepted.response(), (202, "Accepted"));
    assert_eq!(OtpOutcome::Rejected.response(), (401, "Too Much Attempts "));
    assert_eq!(OtpOutcome::Retry.response(), (401, "OTP failure: Retry"));
    assert_eq!(OtpOutcome::Locked.response(), (401, "Authentication failure"));
}

#[test]
fn first_request_sends_the_code() {
    let mut s = session("12345", 0);
    let before = s.clone();
    let message = email_otp(&mut s, bob(), &key(), -1).unwrap();
    assert_eq!(
        message,
        Some(Message {
            email: "bob@example.com".to_string(),
            subject: "Your Confirmation Code".to_string(),
            msg: " <p>Your Confirmation code is : 12345 </p>".to_string(),
        })
    );
    assert_eq!(s, UserSession { otp_code_sent: true, ..before });
}

#[test]
fn second_request_sends_nothing() {
    let mut s = session("12345", 0);
    let first = email_otp(&mut s, bob(), &key(), -1).unwrap();
    assert!(first.is_some());
    let after_first = s.clone();
    assert_eq!(email_otp(&mut s, bob(), &key(), -1), Ok(None));
    assert_eq!(s, after_first);
    assert_eq!(email_otp(&mut s, bob(), &key(), -1), Ok(None));
    assert_eq!(s, after_first);
}

#[test]
fn a_sent_code_is_not_opened_again() {
    let mut s = session("12345", 0);
    s.otp_code_sent = true;
    s.otp_code_encrypted = "broken".to_string();
    assert_eq!(email_otp(&mut s, bob(), &[], -1), Ok(None));
}

#[test]
fn placeholder_user_gets_no_mail_but_is_marked() {
    let mut s = session("12345", 0);
    assert_eq!(email_otp(&mut s, bob(), &key(), 42), Ok(None));
    assert!(s.otp_code_sent);
    let mut s = session("12345", 0);
    assert_eq!(email_otp(&mut s, None, &key(), 42), Ok(None));
    assert!(s.otp_code_sent);
}

#[test]
fn user_without_an_address_gets_no_mail_but_is_marked() {
    let mut s = session("12345", 0);
    assert_eq!(email_otp(&mut s, None, &key(), -1), Ok(None));
    assert!(s.otp_code_sent);
}

#[test]
fn a_request_whose_code_does_not_open_fails_and_stays_marked() {
    let mut s = session("12345", 0);
    s.otp_code_encrypted = "nothing".to_string();
    assert_eq!(email_otp(&mut s, bob(), &key(), -1), Err(ServiceError::CryptoError));
    assert!(s.otp_code_sent);
    assert_eq!(email_otp(&mut s, bob(), &key(), -1), Ok(None));
}
