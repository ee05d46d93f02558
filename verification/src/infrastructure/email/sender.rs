use vstd::prelude::*;

use crate::config::EmailSettings;
use crate::infrastructure::email::templates::EmailTemplates;

verus! {

/// Mailboxes (a display name and an address) are carried through unread.
#[verifier::external_type_specification]
#[verifier::external_body]
pub struct ExMailbox(lettre::message::Mailbox);

/// Errors of address parsing, carried through unread.
#[verifier::external_type_specification]
#[verifier::external_body]
pub struct ExAddressError(lettre::address::AddressError);

/// Built messages are carried through unread.
#[verifier::external_type_specification]
#[verifier::external_body]
pub struct ExMessage(lettre::Message);

/// Errors of message building, carried through unread.
#[verifier::external_type_specification]
#[verifier::external_body]
pub struct ExEmailError(lettre::error::Error);

/// Whether `lettre` reads a text as a mailbox (`"Name <user@domain>"` or a
/// bare address), as `str::parse::<lettre::message::Mailbox>` decides.
pub uninterp spec fn mailbox_accepts(text: Seq<char>) -> bool;

/// Reads `mail.from` and `mail.to` as mailboxes (`str::parse::<lettre::message::Mailbox>`)
/// and builds the message with `lettre::Message::builder()`: that sender, that
/// recipient, the content type `text/html; charset=utf-8`, `mail.subject` as
/// subject and `mail.html` as body (`MessageBuilder::body`).
/// Claimed: a built message carries those texts, recorded beside it; a message
/// is built only when both texts are mailboxes; a text that is none gives an
/// address error. Left unsaid: that building succeeds when both texts are
/// mailboxes. The builder prints the sender and the recipient into headers and
/// reads them back, and the source does not show that this always succeeds.
/// The builder also stamps the message with the current date.
#[verifier::external_body]
fn html_message(mail: &VerificationEmail) -> (r: Result<BuiltMessage, MessageError>)
    ensures
        r is Ok ==> mailbox_accepts(mail.from@) && mailbox_accepts(mail.to@),
        !(mailbox_accepts(mail.from@) && mailbox_accepts(mail.to@)) ==> (r matches Err(MessageError::Address(_))),
        r matches Ok(m) ==> m.carries(mail.from@, mail.to@, mail.subject@, mail.html@),
{
    let from: lettre::message::Mailbox = mail.from.parse().map_err(MessageError::Address)?;
    let to: lettre::message::Mailbox = mail.to.parse().map_err(MessageError::Address)?;
    let message = lettre::Message::builder().from(from).to(to)
        .header(lettre::message::header::ContentType::TEXT_HTML)
        .subject(mail.subject.clone()).body(mail.html.clone()).map_err(MessageError::Email)?;
    Ok(BuiltMessage { message, from: Ghost(mail.from@), to: Ghost(mail.to@), subject: Ghost(mail.subject@),
        content_type: Ghost("text/html; charset=utf-8"@), html: Ghost(mail.html@) })
}

/// A built message, beside the texts it was built from.
pub struct BuiltMessage {
    pub message: lettre::Message,
    /// The sender.
    pub from: Ghost<Seq<char>>,
    /// The recipient.
    pub to: Ghost<Seq<char>>,
    pub subject: Ghost<Seq<char>>,
    /// The `Content-Type` header.
    pub content_type: Ghost<Seq<char>>,
    /// The body.
    pub html: Ghost<Seq<char>>,
}

impl BuiltMessage {
    /// The message goes from `from` to `to` with subject `subject` and the
    /// HTML body `html`.
    pub open spec fn carries(self, from: Seq<char>, to: Seq<char>, subject: Seq<char>, html: Seq<char>) -> bool {
        &&& self.from@ == from
        &&& self.to@ == to
        &&& self.subject@ == subject
        &&& self.content_type@ == "text/html; charset=utf-8"@
        &&& self.html@ == html
    }
}

/// Why a verification message could not be built.
#[derive(Debug)]
pub enum MessageError {
    /// The sender or the recipient is not a mailbox.
    Address(lettre::address::AddressError),
    /// The message could not be assembled.
    Email(lettre::error::Error),
}

/// A verification e-mail ready to be addressed and sent.
#[derive(Debug)]
pub struct VerificationEmail {
    /// The sender, `"Cache Flow <{from}>"`.
    pub from: String,
    /// The recipient, `"{name} <{to_email}>"`.
    pub to: String,
    pub subject: String,
    /// The HTML body.
    pub html: String,
}

/// The verification e-mail to `name` at `to_email` carrying `code`.
pub fn verification_email(settings: &EmailSettings, to_email: &str, name: &str, code: &str) -> (m: VerificationEmail)
    ensures
        m.from@ == verification_email_spec(settings, to_email@, name@).0,
        m.to@ == verification_email_spec(settings, to_email@, name@).1,
        m.subject@ == "Cache Flow Registration"@,
        m.html@ == EmailTemplates::verification_html(name@, code@, settings.code_expire_min),
{
    let html = EmailTemplates::get_verification_html(name, code, settings.code_expire_min);
    let mut from = String::from_str("Cache Flow <");
    from.append(settings.from.as_str());
    from.append(">");
    let mut to = String::from_str(name);
    to.append(" <");
    to.append(to_email);
    to.append(">");
    VerificationEmail { from, to, subject: String::from_str("Cache Flow Registration"), html }
}

/// The verification message to `name` at `to_email` carrying `code`, as
/// [`verification_email`] composes it: sender `"Cache Flow <{from}>"`,
/// recipient `"{name} <{to_email}>"`, subject "Cache Flow Registration" and
/// the verification page as HTML body. A message comes back only when sender
/// and recipient are mailboxes, and a text that is none gives an address
/// error.
pub fn build_verification_message(settings: &EmailSettings, to_email: &str, name: &str, code: &str) -> (r: Result<BuiltMessage, MessageError>)
    ensures
        ({
            let m = verification_email_spec(settings, to_email@, name@);
            &&& r is Ok ==> mailbox_accepts(m.0) && mailbox_accepts(m.1)
            &&& !(mailbox_accepts(m.0) && mailbox_accepts(m.1)) ==> (r matches Err(MessageError::Address(_)))
            &&& r matches Ok(msg) ==> msg.carries(
                m.0,
                m.1,
                "Cache Flow Registration"@,
                EmailTemplates::verification_html(name@, code@, settings.code_expire_min),
            )
        }),
{
    let mail = verification_email(settings, to_email, name, code);
    html_message(&mail)
}

/// The sender and the recipient texts of a verification e-mail.
pub open spec fn verification_email_spec(settings: &EmailSettings, to_email: Seq<char>, name: Seq<char>) -> (Seq<char>, Seq<char>) {
    ("Cache Flow <"@ + settings.from@ + ">"@, name + " <"@ + to_email + ">"@)
}

} // verus!
