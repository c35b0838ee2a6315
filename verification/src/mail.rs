//! The messages that the service sends, composed and ready for a mail
//! transport.

use vstd::prelude::*;
use vstd::string::StringExecFns;
use vstd::utf8::encode_utf8;
use crate::errors::ServiceError;

verus! {

/// A message as the service writes it: a recipient, a subject and a body in
/// HTML.
#[derive(Debug, Clone, PartialEq, Eq)]
pub struct Message {
    pub email: String,
    pub subject: String,
    pub msg: String,
}

/// The texts of a message.
pub struct MessageView {
    pub email: Seq<char>,
    pub subject: Seq<char>,
    pub msg: Seq<char>,
}

impl View for Message {
    type V = MessageView;

    open spec fn view(&self) -> MessageView {
        MessageView { email: self.email@, subject: self.subject@, msg: self.msg@ }
    }
}

/// A message as a mail transport takes it, with the body in HTML and as
/// plain text.
#[derive(Debug, Clone, PartialEq, Eq)]
pub struct Outgoing {
    pub from: String,
    pub to: String,
    pub subject: String,
    pub html_body: String,
    pub text_body: String,
}

/// The width, in columns, that a plain-text body is wrapped to.
pub const TEXT_WIDTH: usize = 80;

/// The plain text that the `html2text` crate renders an HTML document as,
/// wrapped to `width` columns; nothing where it cannot render it.
pub uninterp spec fn html_as_text(html: Seq<u8>, width: nat) -> Option<Seq<char>>;

/// Calls `html2text::from_read` on the bytes of a document. The result
/// depends on the document and the width alone.
#[verifier::external_body]
pub(crate) fn html_to_text(html: &[u8], width: usize) -> (text: Option<String>)
    ensures
        match text {
            Some(t) => html_as_text(html@, width as nat) == Some(t@),
            None => html_as_text(html@, width as nat) is None,
        },
{
    html2text::from_read(html, width).ok()
}

/// The address that the service sends from.
pub open spec fn sender() -> Seq<char> {
    "me@me.com"@
}

/// The subject of the message that carries a passcode.
pub open spec fn otp_subject() -> Seq<char> {
    "Your Confirmation Code"@
}

/// The body of the message that carries the passcode `code`.
pub open spec fn otp_body(code: Seq<char>) -> Seq<char> {
    " <p>Your Confirmation code is : "@ + code + " </p>"@
}

/// The message that carries the passcode `code` to `email`.
pub open spec fn otp_mail(email: Seq<char>, code: Seq<char>) -> MessageView {
    MessageView { email, subject: otp_subject(), msg: otp_body(code) }
}

/// `e` is the failure that a message which cannot be rendered is reported
/// as.
pub open spec fn is_render_failure(e: ServiceError) -> bool {
    e matches ServiceError::ProcessError(m) && m@ == "Could not render the message as text"@
}

/// Writes the message that carries the passcode `code` to `email`.
pub fn otp_message(email: String, code: &str) -> (message: Message)
    ensures
        message@ == otp_mail(email@, code@),
{
    let body = String::from_str(" <p>Your Confirmation code is : ").concat(code).concat(" </p>");
    Message { email, subject: String::from_str("Your Confirmation Code"), msg: body }
}

/// Makes a message ready for the transport: names the sender and renders
/// the body as plain text beside the HTML.
///
/// Fails where the body cannot be rendered as text.
pub fn compose(message: Message) -> (ready: Result<Outgoing, ServiceError>)
    ensures
        match ready {
            Ok(out) => out.from@ == sender() && out.to == message.email && out.subject
                == message.subject && out.html_body == message.msg && html_as_text(
                encode_utf8(message.msg@),
                TEXT_WIDTH as nat,
            ) == Some(out.text_body@),
            Err(e) => is_render_failure(e) && html_as_text(
                encode_utf8(message.msg@),
                TEXT_WIDTH as nat,
            ) is None,
        },
{
    match html_to_text(message.msg.as_str().as_bytes(), TEXT_WIDTH) {
        Some(text) => Ok(
            Outgoing {
                from: String::from_str("me@me.com"),
                to: message.email,
                subject: message.subject,
                html_body: message.msg,
                text_body: text,
            },
        ),
        None => Err(
            ServiceError::ProcessError(String::from_str("Could not render the message as text")),
        ),
    }
}

} // verus!
