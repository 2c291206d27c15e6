//! Local-capture invitation mail: which recipients may be written to, what
//! the message says, and how an SMTP attempt is recorded.
use crate::api::auth::{ConfigError, check_origin, origin_allowed, url_parts, uses_https};
use crate::crypto::{credential_digest, token_hash};
use crate::outbox::{Completion, Delivery};
use crate::text::{decimal_string, hex, hex_lower, signed_decimal};
use vstd::prelude::*;

verus! {

/// The mailbox that invitation mail is sent from.
pub const SENDER: &'static str = "Iris <no-reply@iris.test>";

/// The domain part of an email address as `lettre::Address` parses it;
/// `None` when the text is not an address.
pub uninterp spec fn email_domain(text: Seq<char>) -> Option<Seq<char>>;

/// Calls `lettre::Address::from_str`, then `domain`. Trusted: the result is
/// the named domain of the text.
#[verifier::external_body]
fn parse_email_domain(text: &str) -> (r: Option<String>)
    ensures
        match r {
            Some(d) => email_domain(text@) == Some(d@),
            None => email_domain(text@) is None,
        },
{
    match text.parse::<lettre::Address>() {
        Ok(address) => Some(address.domain().to_string()),
        Err(_) => None,
    }
}

/// Local capture only: the recipient's domain ends in `.test`.
pub open spec fn test_domain(domain: Seq<char>) -> bool {
    domain.len() >= 5 && domain.subrange(domain.len() - 5, domain.len() as int) == seq![
        '.',
        't',
        'e',
        's',
        't',
    ]
}

/// A recipient that may be written to: a valid address in a `.test` domain.
pub open spec fn deliverable(recipient: Seq<char>) -> bool {
    email_domain(recipient) matches Some(d) && test_domain(d)
}

fn ends_with_test(domain: &str) -> (r: bool)
    ensures
        r == test_domain(domain@),
{
    let len = domain.unicode_len();
    if len < 5 {
        return false;
    }
    let expected: [char; 5] = ['.', 't', 'e', 's', 't'];
    let mut i: usize = 0;
    while i < 5
        invariant
            i <= 5,
            len == domain@.len(),
            len >= 5,
            expected@ == seq!['.', 't', 'e', 's', 't'],
            forall|j: int| 0 <= j < i ==> domain@[len - 5 + j] == expected@[j],
        decreases 5 - i,
    {
        if domain.get_char(len - 5 + i) != expected[i] {
            assert(domain@.subrange(len - 5, len as int)[i as int] != seq!['.', 't', 'e', 's', 't'][i as int]);
            return false;
        }
        i = i + 1;
    }
    assert(domain@.subrange(len - 5, len as int) =~= seq!['.', 't', 'e', 's', 't']);
    true
}

/// The configured public origin of invitation links; construction refuses an
/// origin that is not canonical HTTPS or HTTP loopback.
pub struct MailOrigin {
    origin: String,
}

impl MailOrigin {
    pub closed spec fn text(&self) -> Seq<char> {
        self.origin@
    }

    pub fn new(origin: String) -> (r: Result<MailOrigin, ConfigError>)
        ensures
            url_parts(origin@) is None ==> r matches Err(ConfigError::InvalidUrl),
            url_parts(origin@) is Some && !origin_allowed(origin@) ==> r matches Err(ConfigError::Origin),
            origin_allowed(origin@) ==> (r matches Ok(m) && m.text() == origin@),
    {
        match check_origin(origin.as_str()) {
            Ok(_) => Ok(MailOrigin { origin }),
            Err(e) => Err(e),
        }
    }
}

/// A message ready for the SMTP transport.
pub struct MailContent {
    pub to: String,
    pub message_id: String,
    pub subject: String,
    pub body: String,
}

pub open spec fn subject_text(project_id: i64) -> Seq<char> {
    "Iris: invitation to project "@ + signed_decimal(project_id as int)
}

pub open spec fn message_id_text(token: Seq<char>) -> Seq<char> {
    "<invitation-"@ + hex(credential_digest(token)) + "@iris.test>"@
}

pub open spec fn body_text(project_id: i64, origin: Seq<char>, token: Seq<char>) -> Seq<char> {
    "Local Iris experiment \u{2014} no real email was sent.\n\nYou have been invited to project "@
        + signed_decimal(project_id as int)
        + ". Sign in as the recipient, then open or reopen this link and explicitly accept:\n\n"@
        + origin + "/#invitation="@ + token
        + "\n\nThis invitation expires one hour after issuance. Retries may deliver duplicate messages; they share the same invitation.\n"@
}

/// The invitation message for a claimed job: to the job's recipient, with a
/// message id derived from the credential's digest (so retries share it),
/// and a link that carries the credential. `None` when the recipient may not
/// be written to.
pub fn message(origin: &MailOrigin, job: &Delivery) -> (r: Option<MailContent>)
    ensures
        !deliverable(job.recipient@) ==> r is None,
        deliverable(job.recipient@) ==> (r matches Some(m) && m.to@ == job.recipient@
            && m.message_id@ == message_id_text(job.token@) && m.subject@ == subject_text(
            job.project_id,
        ) && m.body@ == body_text(job.project_id, origin.text(), job.token@)),
{
    let domain = match parse_email_domain(job.recipient.as_str()) {
        Some(d) => d,
        None => {
            return None;
        },
    };
    if !ends_with_test(domain.as_str()) {
        return None;
    }
    let digest = token_hash(job.token.as_str());
    let mut message_id = String::from_str("<invitation-");
    message_id.append(hex_lower(digest.as_slice()).as_str());
    message_id.append("@iris.test>");
    let project = decimal_string(job.project_id);
    let mut subject = String::from_str("Iris: invitation to project ");
    subject.append(project.as_str());
    let mut body = String::from_str(
        "Local Iris experiment \u{2014} no real email was sent.\n\nYou have been invited to project ",
    );
    body.append(project.as_str());
    body.append(
        ". Sign in as the recipient, then open or reopen this link and explicitly accept:\n\n",
    );
    body.append(origin.origin.as_str());
    body.append("/#invitation=");
    body.append(job.token.as_str());
    body.append(
        "\n\nThis invitation expires one hour after issuance. Retries may deliver duplicate messages; they share the same invitation.\n",
    );
    Some(MailContent { to: job.recipient.clone(), message_id, subject, body })
}

/// What became of one attempt to send.
pub enum SendResult {
    /// No message could be built for the job (see `message`).
    NotBuilt,
    /// The server accepted the message.
    Accepted,
    /// The server refused it; `permanent` for a 5xx refusal.
    Refused { permanent: bool },
    /// No answer within ten seconds, or the connection failed.
    TimedOut,
}

/// How an attempt is recorded: sent, a permanent failure (including a message
/// that could not be built), or a retry.
pub fn send_outcome(result: SendResult) -> (r: Completion)
    ensures
        match result {
            SendResult::NotBuilt => r is PermanentFailure,
            SendResult::Accepted => r is Sent,
            SendResult::Refused { permanent: true } => r is PermanentFailure,
            SendResult::Refused { permanent: false } => r is Retry,
            SendResult::TimedOut => r is Retry,
        },
{
    match result {
        SendResult::NotBuilt => Completion::PermanentFailure,
        SendResult::Accepted => Completion::Sent,
        SendResult::Refused { permanent: true } => Completion::PermanentFailure,
        SendResult::Refused { permanent: false } => Completion::Retry,
        SendResult::TimedOut => Completion::Retry,
    }
}

} // verus!
