//! The HTTP contract of the invitation and membership actions: request and
//! response bodies, error codes with their statuses, and how each action's
//! outcome becomes a response.
pub mod auth;
pub mod delivery;
pub mod invitations;
pub mod members;
pub mod s16;

use crate::database::{DbError, busy_code, is_busy};
use crate::invitations::{AcceptInvitation, Outcome};
use crate::api::auth::{single, single_value};
use crate::text::{decimal_string, signed_decimal, text_eq};
use vstd::prelude::*;

verus! {

pub const ACCEPT_PATH: &'static str = "/api/invitations/accept";

pub const ISSUE_PATH: &'static str = "/api/invitations";

pub struct AcceptRequest {
    /// Opaque invitation credential. Identity is never accepted in this body.
    pub token: String,
}

pub struct Acceptance {
    /// IDs are strings at the wire boundary to avoid JavaScript integer loss.
    pub project_id: String,
    pub user_id: String,
}

#[derive(Clone, Copy, Debug, PartialEq, Eq)]
pub enum ErrorCode {
    InvalidRequest,
    Csrf,
    LoginFailed,
    Forbidden,
    RecipientNotFound,
    AlreadyMember,
    InvitationPending,
    Unauthorized,
    NotFound,
    Expired,
    AlreadyAccepted,
    MemberNotFound,
    LastOwner,
    Internal,
    Unavailable,
}

/// The wire name of each code (`snake_case`).
pub open spec fn code_name(code: ErrorCode) -> &'static str {
    match code {
        ErrorCode::InvalidRequest => "invalid_request",
        ErrorCode::Csrf => "csrf",
        ErrorCode::LoginFailed => "login_failed",
        ErrorCode::Forbidden => "forbidden",
        ErrorCode::RecipientNotFound => "recipient_not_found",
        ErrorCode::AlreadyMember => "already_member",
        ErrorCode::InvitationPending => "invitation_pending",
        ErrorCode::Unauthorized => "unauthorized",
        ErrorCode::NotFound => "not_found",
        ErrorCode::Expired => "expired",
        ErrorCode::AlreadyAccepted => "already_accepted",
        ErrorCode::MemberNotFound => "member_not_found",
        ErrorCode::LastOwner => "last_owner",
        ErrorCode::Internal => "internal",
        ErrorCode::Unavailable => "unavailable",
    }
}

/// The HTTP status that answers each code.
pub open spec fn code_status(code: ErrorCode) -> u16 {
    match code {
        ErrorCode::InvalidRequest => 400,
        ErrorCode::Csrf => 403,
        ErrorCode::LoginFailed => 401,
        ErrorCode::Forbidden => 403,
        ErrorCode::RecipientNotFound => 404,
        ErrorCode::AlreadyMember => 409,
        ErrorCode::InvitationPending => 409,
        ErrorCode::Unauthorized => 401,
        ErrorCode::NotFound => 404,
        ErrorCode::Expired => 409,
        ErrorCode::AlreadyAccepted => 409,
        ErrorCode::MemberNotFound => 404,
        ErrorCode::LastOwner => 409,
        ErrorCode::Internal => 500,
        ErrorCode::Unavailable => 503,
    }
}

/// The human-readable message sent with each code.
pub open spec fn code_message(code: ErrorCode) -> &'static str {
    match code {
        ErrorCode::Csrf => "Refresh the session and send a valid same-origin CSRF token.",
        ErrorCode::LoginFailed => "Login failed. Start a new login attempt.",
        ErrorCode::InvalidRequest => "Provide the required fields with valid values and no extra fields.",
        ErrorCode::Forbidden => "Only a project owner can issue invitations.",
        ErrorCode::RecipientNotFound => "Recipient not found.",
        ErrorCode::AlreadyMember => "The recipient is already a member.",
        ErrorCode::InvitationPending => "An unexpired invitation already exists.",
        ErrorCode::Unauthorized => "Sign in to continue.",
        ErrorCode::NotFound => "Invitation not found for this identity.",
        ErrorCode::Expired => "This invitation has expired.",
        ErrorCode::AlreadyAccepted => "This invitation has already been accepted.",
        ErrorCode::MemberNotFound => "Member not found.",
        ErrorCode::LastOwner => "The project must retain an owner.",
        ErrorCode::Internal => "The request could not be completed.",
        ErrorCode::Unavailable => "The database is busy. Try again shortly.",
    }
}

impl ErrorCode {
    /// The code as it appears in a problem body.
    pub fn as_str(&self) -> (r: &'static str)
        ensures
            r == code_name(*self),
    {
        match self {
            ErrorCode::InvalidRequest => "invalid_request",
            ErrorCode::Csrf => "csrf",
            ErrorCode::LoginFailed => "login_failed",
            ErrorCode::Forbidden => "forbidden",
            ErrorCode::RecipientNotFound => "recipient_not_found",
            ErrorCode::AlreadyMember => "already_member",
            ErrorCode::InvitationPending => "invitation_pending",
            ErrorCode::Unauthorized => "unauthorized",
            ErrorCode::NotFound => "not_found",
            ErrorCode::Expired => "expired",
            ErrorCode::AlreadyAccepted => "already_accepted",
            ErrorCode::MemberNotFound => "member_not_found",
            ErrorCode::LastOwner => "last_owner",
            ErrorCode::Internal => "internal",
            ErrorCode::Unavailable => "unavailable",
        }
    }
}

pub struct Problem {
    pub code: ErrorCode,
    pub message: String,
}

pub struct ApiError(pub ErrorCode);

impl ApiError {
    /// The response status for this error.
    pub fn status(&self) -> (r: u16)
        ensures
            r == code_status(self.0),
    {
        match self.0 {
            ErrorCode::InvalidRequest => 400,
            ErrorCode::Csrf => 403,
            ErrorCode::LoginFailed => 401,
            ErrorCode::Forbidden => 403,
            ErrorCode::RecipientNotFound => 404,
            ErrorCode::AlreadyMember => 409,
            ErrorCode::InvitationPending => 409,
            ErrorCode::Unauthorized => 401,
            ErrorCode::NotFound => 404,
            ErrorCode::Expired => 409,
            ErrorCode::AlreadyAccepted => 409,
            ErrorCode::MemberNotFound => 404,
            ErrorCode::LastOwner => 409,
            ErrorCode::Internal => 500,
            ErrorCode::Unavailable => 503,
        }
    }

    /// The message for this error.
    pub fn message(&self) -> (r: &'static str)
        ensures
            r == code_message(self.0),
    {
        match self.0 {
            ErrorCode::Csrf => "Refresh the session and send a valid same-origin CSRF token.",
            ErrorCode::LoginFailed => "Login failed. Start a new login attempt.",
            ErrorCode::InvalidRequest => "Provide the required fields with valid values and no extra fields.",
            ErrorCode::Forbidden => "Only a project owner can issue invitations.",
            ErrorCode::RecipientNotFound => "Recipient not found.",
            ErrorCode::AlreadyMember => "The recipient is already a member.",
            ErrorCode::InvitationPending => "An unexpired invitation already exists.",
            ErrorCode::Unauthorized => "Sign in to continue.",
            ErrorCode::NotFound => "Invitation not found for this identity.",
            ErrorCode::Expired => "This invitation has expired.",
            ErrorCode::AlreadyAccepted => "This invitation has already been accepted.",
            ErrorCode::MemberNotFound => "Member not found.",
            ErrorCode::LastOwner => "The project must retain an owner.",
            ErrorCode::Internal => "The request could not be completed.",
            ErrorCode::Unavailable => "The database is busy. Try again shortly.",
        }
    }

    /// The status and problem body that answer this error.
    pub fn into_response(self) -> (r: (u16, Problem))
        ensures
            r.0 == code_status(self.0),
            r.1.code == self.0,
            r.1.message@ == code_message(self.0)@,
    {
        let status = self.status();
        let message = String::from_str(self.message());
        (status, Problem { code: self.0, message })
    }
}

/// The identity of the signed-in user. Only the session boundary (or the
/// isolated development adapter) supplies one; request bodies cannot.
#[derive(Clone)]
pub struct Actor(i64);

impl Actor {
    pub closed spec fn spec_id(&self) -> i64 {
        self.0
    }

    /// An actor established by the session boundary.
    pub fn new(user_id: i64) -> (r: Actor)
        ensures
            r.spec_id() == user_id,
    {
        Actor(user_id)
    }

    pub fn id(&self) -> (r: i64)
        ensures
            r == self.spec_id(),
    {
        self.0
    }
}

/// A database failure: busy is `Unavailable` (retryable), anything else is
/// `Internal`. No driver text reaches the response.
pub fn database_error(error: DbError) -> (r: ApiError)
    ensures
        r.0 == (if error.code matches Some(c) && busy_code(c@) {
            ErrorCode::Unavailable
        } else {
            ErrorCode::Internal
        }),
{
    if is_busy(&error) {
        ApiError(ErrorCode::Unavailable)
    } else {
        ApiError(ErrorCode::Internal)
    }
}

/// Tokens are between 1 and 256 characters long.
pub open spec fn token_length_ok(token: Seq<char>) -> bool {
    1 <= token.len() <= 256
}

/// The acceptance attempt for a signed-in user's request body, refused as
/// `InvalidRequest` when the token's length is out of bounds.
pub fn accept_input<'a>(body: &'a AcceptRequest, actor: &Actor, now: i64) -> (r: Result<
    AcceptInvitation<'a>,
    ApiError,
>)
    ensures
        token_length_ok(body.token@) ==> (r matches Ok(a) && a.token@ == body.token@ && a.user_id
            == actor.spec_id() && a.now == now),
        !token_length_ok(body.token@) ==> (r matches Err(e) && e.0 == ErrorCode::InvalidRequest),
{
    let length = body.token.as_str().unicode_len();
    if length < 1 || length > 256 {
        return Err(ApiError(ErrorCode::InvalidRequest));
    }
    Ok(AcceptInvitation { token: body.token.as_str(), user_id: actor.id(), now })
}

/// The response to an acceptance: the accepted project and user as decimal
/// strings, or the error code of each other outcome.
pub fn accept_reply(user_id: i64, result: Result<Outcome, DbError>) -> (r: Result<Acceptance, ApiError>)
    ensures
        match result {
            Ok(Outcome::Accepted { project_id }) => r matches Ok(a) && a.project_id@ == signed_decimal(
                project_id as int,
            ) && a.user_id@ == signed_decimal(user_id as int),
            Ok(Outcome::NotFound) => r matches Err(e) && e.0 == ErrorCode::NotFound,
            Ok(Outcome::Expired) => r matches Err(e) && e.0 == ErrorCode::Expired,
            Ok(Outcome::AlreadyAccepted) => r matches Err(e) && e.0 == ErrorCode::AlreadyAccepted,
            Err(error) => r matches Err(e) && e.0 == (if error.code matches Some(c) && busy_code(c@) {
                ErrorCode::Unavailable
            } else {
                ErrorCode::Internal
            }),
        },
{
    match result {
        Ok(Outcome::Accepted { project_id }) => Ok(
            Acceptance { project_id: decimal_string(project_id), user_id: decimal_string(user_id) },
        ),
        Ok(Outcome::NotFound) => Err(ApiError(ErrorCode::NotFound)),
        Ok(Outcome::Expired) => Err(ApiError(ErrorCode::Expired)),
        Ok(Outcome::AlreadyAccepted) => Err(ApiError(ErrorCode::AlreadyAccepted)),
        Err(error) => Err(database_error(error)),
    }
}

/// The actor that the session boundary attached to a request, or
/// `Unauthorized` when it attached none.
pub fn require_actor(actor: Option<Actor>) -> (r: Result<Actor, ApiError>)
    ensures
        actor is None ==> (r matches Err(e) && e.0 == ErrorCode::Unauthorized),
        actor matches Some(a) ==> (r matches Ok(b) && b.spec_id() == a.spec_id()),
{
    match actor {
        Some(a) => Ok(a),
        None => Err(ApiError(ErrorCode::Unauthorized)),
    }
}

/// The synthetic users that the isolated development adapter admits.
pub open spec fn development_user(value: Seq<char>) -> Option<i64> {
    if value == seq!['1', '1'] {
        Some(11)
    } else if value == seq!['2', '9'] {
        Some(29)
    } else {
        None
    }
}

/// The development adapter's actor: exactly one `x-iris-dev-user` value that
/// names user 11 or user 29. Caller-controlled, so never used with the
/// session-authenticated application.
pub fn development_actor(values: &[Option<&str>]) -> (r: Option<Actor>)
    ensures
        match single_value(values@) {
            Some(v) => match development_user(v@) {
                Some(u) => r matches Some(a) && a.spec_id() == u,
                None => r is None,
            },
            None => r is None,
        },
{
    proof {
        reveal_strlit("11");
        reveal_strlit("29");
        assert("11"@ =~= seq!['1', '1']);
        assert("29"@ =~= seq!['2', '9']);
    }
    match single(values) {
        Some(v) => if text_eq(v, "11") {
            Some(Actor::new(11))
        } else if text_eq(v, "29") {
            Some(Actor::new(29))
        } else {
            None
        },
        None => None,
    }
}

/// One documented response of an endpoint: its status and description.
pub struct Documented {
    pub status: u16,
    pub description: &'static str,
}

/// The responses documented for accepting an invitation, by status.
pub open spec fn accept_documented() -> Seq<(u16, &'static str)> {
    seq![
        (200, "Invitation accepted; existing membership role preserved"),
        (400, "Invalid JSON, fields, or token length"),
        (401, "Sign-in required"),
        (403, "CSRF validation failed"),
        (404, "Unknown token or wrong recipient"),
        (409, "Expired or already accepted"),
        (500, "Internal error"),
        (503, "Database busy"),
    ]
}

/// The responses documented for issuing an invitation, by status.
pub open spec fn issue_documented() -> Seq<(u16, &'static str)> {
    seq![
        (201, "Invitation issued; membership unchanged"),
        (400, "Invalid request"),
        (401, "Sign-in required"),
        (403, "Not a project owner or CSRF validation failed"),
        (404, "Recipient not found"),
        (409, "Already a member or invitation pending"),
        (500, "Internal error"),
        (503, "Database busy"),
    ]
}

/// The responses documented for changing a role (`removal` false) or
/// removing a member (`removal` true), by status.
pub open spec fn member_documented(removal: bool) -> Seq<(u16, &'static str)> {
    seq![
        (200, if removal {
            "Membership removed"
        } else {
            "Member role changed (same role is a successful no-op)"
        }),
        (400, "Invalid request"),
        (401, "Sign-in required"),
        (403, "Not a project owner or CSRF validation failed"),
        (404, "Member not found"),
        (409, "Last owner must remain"),
        (500, "Internal error"),
        (503, "Database busy"),
    ]
}

fn documented_table(entries: [(u16, &'static str); 8]) -> (r: Vec<Documented>)
    ensures
        r@.len() == 8,
        forall|i: int| 0 <= i < 8 ==> (#[trigger] r@[i]).status == entries@[i].0 && r@[i].description
            == entries@[i].1,
{
    let mut r: Vec<Documented> = Vec::new();
    let mut i: usize = 0;
    while i < 8
        invariant
            i <= 8,
            r@.len() == i,
            forall|j: int| 0 <= j < i ==> (#[trigger] r@[j]).status == entries@[j].0
                && r@[j].description == entries@[j].1,
        decreases 8 - i,
    {
        let (status, description) = entries[i];
        r.push(Documented { status, description });
        i = i + 1;
    }
    r
}

/// The documented responses of the acceptance endpoint.
pub fn accept_responses() -> (r: Vec<Documented>)
    ensures
        r@.len() == accept_documented().len(),
        forall|i: int|
            0 <= i < r@.len() ==> (#[trigger] r@[i]).status == accept_documented()[i].0
                && r@[i].description == accept_documented()[i].1,
{
    documented_table([
        (200, "Invitation accepted; existing membership role preserved"),
        (400, "Invalid JSON, fields, or token length"),
        (401, "Sign-in required"),
        (403, "CSRF validation failed"),
        (404, "Unknown token or wrong recipient"),
        (409, "Expired or already accepted"),
        (500, "Internal error"),
        (503, "Database busy"),
    ])
}

/// The documented responses of the issuing endpoint.
pub fn issue_responses() -> (r: Vec<Documented>)
    ensures
        r@.len() == issue_documented().len(),
        forall|i: int|
            0 <= i < r@.len() ==> (#[trigger] r@[i]).status == issue_documented()[i].0
                && r@[i].description == issue_documented()[i].1,
{
    documented_table([
        (201, "Invitation issued; membership unchanged"),
        (400, "Invalid request"),
        (401, "Sign-in required"),
        (403, "Not a project owner or CSRF validation failed"),
        (404, "Recipient not found"),
        (409, "Already a member or invitation pending"),
        (500, "Internal error"),
        (503, "Database busy"),
    ])
}

/// The documented responses of the membership endpoints.
pub fn member_responses(removal: bool) -> (r: Vec<Documented>)
    ensures
        r@.len() == member_documented(removal).len(),
        forall|i: int|
            0 <= i < r@.len() ==> (#[trigger] r@[i]).status == member_documented(removal)[i].0
                && r@[i].description == member_documented(removal)[i].1,
{
    let success = if removal {
        "Membership removed"
    } else {
        "Member role changed (same role is a successful no-op)"
    };
    documented_table([
        (200, success),
        (400, "Invalid request"),
        (401, "Sign-in required"),
        (403, "Not a project owner or CSRF validation failed"),
        (404, "Member not found"),
        (409, "Last owner must remain"),
        (500, "Internal error"),
        (503, "Database busy"),
    ])
}

/// The description that `table` documents for `status`: that of its first
/// entry with the status, or the empty text when none has it.
pub fn description_of(table: &Vec<Documented>, status: u16) -> (r: &'static str)
    ensures
        (exists|i: int| 0 <= i < table@.len() && table@[i].status == status) ==> exists|i: int|
            0 <= i < table@.len() && table@[i].status == status && r == table@[i].description
                && forall|j: int| 0 <= j < i ==> table@[j].status != status,
        (forall|i: int| 0 <= i < table@.len() ==> table@[i].status != status) ==> r@ == Seq::<
            char,
        >::empty(),
{
    let mut i: usize = 0;
    while i < table.len()
        invariant
            i <= table@.len(),
            forall|j: int| 0 <= j < i ==> table@[j].status != status,
        decreases table@.len() - i,
    {
        if table[i].status == status {
            return table[i].description;
        }
        i = i + 1;
    }
    proof {
        reveal_strlit("");
    }
    ""
}

/// `status` is documented in `table`.
pub open spec fn documents(table: Seq<(u16, &'static str)>, status: u16) -> bool {
    exists|i: int| 0 <= i < table.len() && table[i].0 == status
}

/// The codes that the request pipeline can answer before any action runs:
/// a malformed body, a missing session, a refused CSRF check, and failures.
pub open spec fn pipeline_code(code: ErrorCode) -> bool {
    code == ErrorCode::InvalidRequest || code == ErrorCode::Unauthorized || code == ErrorCode::Csrf
        || code == ErrorCode::Internal || code == ErrorCode::Unavailable
}

/// Every status that an endpoint can answer with is documented for it: the
/// success, every pipeline refusal or failure, and every action refusal.
pub proof fn law_every_answer_is_documented()
    ensures
        documents(accept_documented(), 200),
        forall|c: ErrorCode|
            pipeline_code(c) || c == ErrorCode::NotFound || c == ErrorCode::Expired || c
                == ErrorCode::AlreadyAccepted ==> documents(accept_documented(), #[trigger] code_status(c)),
        documents(issue_documented(), 201),
        forall|c: ErrorCode|
            pipeline_code(c) || c == ErrorCode::Forbidden || c == ErrorCode::RecipientNotFound || c
                == ErrorCode::AlreadyMember || c == ErrorCode::InvitationPending ==> documents(
                issue_documented(),
                #[trigger] code_status(c),
            ),
        forall|removal: bool| documents(#[trigger] member_documented(removal), 200),
        forall|c: ErrorCode, removal: bool|
            pipeline_code(c) || c == ErrorCode::Forbidden || c == ErrorCode::MemberNotFound || c
                == ErrorCode::LastOwner ==> documents(
                #[trigger] member_documented(removal),
                #[trigger] code_status(c),
            ),
{
    let a = accept_documented();
    let s = issue_documented();
    assert(a[0].0 == 200 && a[1].0 == 400 && a[2].0 == 401 && a[3].0 == 403 && a[4].0 == 404 && a[5].0
        == 409 && a[6].0 == 500 && a[7].0 == 503);
    assert(s[0].0 == 201 && s[1].0 == 400 && s[2].0 == 401 && s[3].0 == 403 && s[4].0 == 404 && s[5].0
        == 409 && s[6].0 == 500 && s[7].0 == 503);
    assert forall|removal: bool| documents(#[trigger] member_documented(removal), 200) by {
        assert(member_documented(removal)[0].0 == 200);
    }
    assert forall|c: ErrorCode, removal: bool|
        pipeline_code(c) || c == ErrorCode::Forbidden || c == ErrorCode::MemberNotFound || c
            == ErrorCode::LastOwner implies documents(
        #[trigger] member_documented(removal),
        #[trigger] code_status(c),
    ) by {
        let m = member_documented(removal);
        assert(m[1].0 == 400 && m[2].0 == 401 && m[3].0 == 403 && m[4].0 == 404 && m[5].0 == 409
            && m[6].0 == 500 && m[7].0 == 503);
    }
}

} // verus!
