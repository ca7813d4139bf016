//! The contact route's logic: validates one form submission and composes
//! the outbound email that a mail transport then delivers.
//!
//! Validation runs before any side effect: a missing required field yields
//! an error naming that field, and nothing is composed or dispatched.  The
//! destination address is fixed, never client-supplied, so the endpoint
//! cannot be used as an open relay.
use vstd::prelude::*;
use vstd::string::*;

verus! {

/// The fixed destination of every contact message.
pub const RECIPIENT_ADDRESS: &'static str = "contact@nimaniazi.com";

/// The subject used when the submission carries none.
pub const DEFAULT_SUBJECT: &'static str = "No Subject";

/// One inbound contact-form submission, every field as the client sent it.
/// `recipient_email` is accepted but ignored: the destination is fixed.
pub struct EmailRequest {
    pub sender_name: Option<String>,
    pub sender_email: Option<String>,
    pub recipient_email: Option<String>,
    pub subject: Option<String>,
    pub body: Option<String>,
}

/// A required field that the submission lacks, checked in this order:
/// sender name, then sender email, then body.
pub enum ContactError {
    MissingSenderName,
    MissingSenderEmail,
    MissingBody,
}

impl ContactError {
    /// The text of each error, naming the missing field.
    pub open spec fn message_spec(&self) -> Seq<char> {
        match self {
            ContactError::MissingSenderName => "sender_name is required"@,
            ContactError::MissingSenderEmail => "sender_email is required"@,
            ContactError::MissingBody => "body is required"@,
        }
    }

    /// Returns the error's text, naming the missing field.
    pub fn message(&self) -> (r: &'static str)
        ensures
            r@ == self.message_spec(),
    {
        match self {
            ContactError::MissingSenderName => "sender_name is required",
            ContactError::MissingSenderEmail => "sender_email is required",
            ContactError::MissingBody => "body is required",
        }
    }
}

/// One composed outbound email, ready for a mail transport: the sender's
/// display name paired with the service's own mailbox address, the fixed
/// destination, the subject, and the full body.
pub struct OutboundEmail {
    pub from_mailbox: String,
    pub to_address: String,
    pub subject: String,
    pub body: String,
}

/// The "from" pair: the sender's display name beside the service address.
pub open spec fn from_mailbox_spec(name: Seq<char>, service: Seq<char>) -> Seq<char> {
    name + " <"@ + service + ">"@
}

/// The delivered body: a line identifying the sender, a blank line, then
/// the submitted text.
pub open spec fn full_body_spec(name: Seq<char>, email: Seq<char>, body: Seq<char>) -> Seq<char> {
    "From: "@ + name + " <"@ + email + ">\n\n"@ + body
}

/// The subject sent: the submitted one, or the default when absent.
pub open spec fn subject_spec(subject: Option<String>) -> Seq<char> {
    match subject {
        Option::Some(s) => s@,
        Option::None => DEFAULT_SUBJECT@,
    }
}

/// `e` is the email composed from a complete submission `req` under the
/// service address `service`.
pub open spec fn composed_email_spec(req: EmailRequest, service: Seq<char>, e: OutboundEmail) -> bool {
    match (req.sender_name, req.sender_email, req.body) {
        (Option::Some(n), Option::Some(m), Option::Some(b)) => {
            &&& e.from_mailbox@ == from_mailbox_spec(n@, service)
            &&& e.to_address@ == RECIPIENT_ADDRESS@
            &&& e.subject@ == subject_spec(req.subject)
            &&& e.body@ == full_body_spec(n@, m@, b@)
        },
        _ => false,
    }
}

/// Validates a submission and composes the outbound email.
///
/// Succeeds exactly when sender name, sender email and body are all
/// present; otherwise it returns the error naming the first missing field,
/// before anything is composed.  `service_address` is the service's own
/// mailbox, taken from process configuration, never from the request.
pub fn prepare_email(req: &EmailRequest, service_address: &str) -> (r: Result<
    OutboundEmail,
    ContactError,
>)
    ensures
        r is Ok <==> (req.sender_name is Some && req.sender_email is Some && req.body is Some),
        req.sender_name is None ==> (r matches Err(e) && e is MissingSenderName),
        req.sender_name is Some && req.sender_email is None ==> (r matches Err(e)
            && e is MissingSenderEmail),
        req.sender_name is Some && req.sender_email is Some && req.body is None ==> (r matches Err(
            e,
        ) && e is MissingBody),
        r matches Ok(e) ==> composed_email_spec(*req, service_address@, e),
{
    let name = match &req.sender_name {
        Option::Some(n) => n,
        Option::None => {
            return Result::Err(ContactError::MissingSenderName);
        },
    };
    let email = match &req.sender_email {
        Option::Some(m) => m,
        Option::None => {
            return Result::Err(ContactError::MissingSenderEmail);
        },
    };
    let body = match &req.body {
        Option::Some(b) => b,
        Option::None => {
            return Result::Err(ContactError::MissingBody);
        },
    };
    let subject = match &req.subject {
        Option::Some(s) => s.as_str().to_owned(),
        Option::None => DEFAULT_SUBJECT.to_owned(),
    };
    let from_mailbox = name.as_str().to_owned().concat(" <").concat(service_address).concat(">");
    let full_body = String::from_str("From: ").concat(name.as_str()).concat(" <").concat(
        email.as_str(),
    ).concat(">\n\n").concat(body.as_str());
    Result::Ok(
        OutboundEmail {
            from_mailbox,
            to_address: RECIPIENT_ADDRESS.to_owned(),
            subject,
            body: full_body,
        },
    )
}

} // verus!
