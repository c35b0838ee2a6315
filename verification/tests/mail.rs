use otp_auth::mail::{compose, otp_message, Message};

#[test]
fn passcode_message_is_written_out() {
    let m = otp_message("bob@example.com".to_string(), "54321");
    assert_eq!(m.email, "bob@example.com");
    assert_eq!(m.subject, "Your Confirmation Code");
    assert_eq!(m.msg, " <p>Your Confirmation code is : 54321 </p>");
}

#[test]
fn composed_message_has_both_bodies() {
    let out = compose(otp_message("bob@example.com".to_string(), "54321")).unwrap();
    assert_eq!(out.from, "me@me.com");
    assert_eq!(out.to, "bob@example.com");
    assert_eq!(out.subject, "Your Confirmation Code");
    assert_eq!(out.html_body, " <p>Your Confirmation code is : 54321 </p>");
    assert_eq!(out.text_body, "Your Confirmation code is : 54321\n");
}

#[test]
fn plain_body_is_wrapped_at_eighty_columns() {
    let words = vec!["word"; 40].join(" ");
    let out = compose(Message {
        email: "a@b.c".to_string(),
        subject: "s".to_string(),
        msg: format!("<p>{}</p><p>second <b>bold</b></p>", words),
    })
    .unwrap();
    assert!(!out.text_body.contains('<'));
    assert!(out.text_body.lines().count() >= 4);
    assert!(out.text_body.lines().all(|l| l.chars().count() <= 80));
    assert!(out.text_body.contains("second"));
    assert_ne!(out.text_body, out.html_body);
}
