//! Issuing an invitation over HTTP: identifiers on the wire, and how the
//! issuance outcome becomes a response.
use crate::api::{Actor, ApiError, ErrorCode, database_error};
use crate::database::{DbError, busy_code};
use crate::invitations::{IssueFailure, IssueInvitation, IssueOutcome};
use crate::text::{canonical_id, parse_canonical_id, signed_decimal};
use vstd::prelude::*;

verus! {

pub struct IssueRequest {
    /// Positive signed-64-bit decimal ID. No leading zeros.
    pub project_id: String,
    /// Existing account; same ID format as project_id.
    pub recipient_id: String,
}

pub struct IssuedInvitation {
    pub project_id: String,
    pub recipient_id: String,
    /// Demo-only delivery: treat as a credential. Stored only as a hash.
    pub token: String,
    /// Unix seconds, serialized as a string.
    pub expires_at: String,
}

/// An identifier from a request body: the canonical decimal form of a
/// positive `i64`, or `InvalidRequest`.
pub fn id(value: &str) -> (r: Result<i64, ApiError>)
    ensures
        r matches Ok(n) ==> canonical_id(value@, n),
        r is Err ==> (forall|n: i64| !canonical_id(value@, n)) && (r matches Err(e) && e.0
            == ErrorCode::InvalidRequest),
{
    match parse_canonical_id(value) {
        Some(n) => Ok(n),
        None => Err(ApiError(ErrorCode::InvalidRequest)),
    }
}

/// The issuance that a signed-in owner's request asks for.
pub fn issue_input(body: &IssueRequest, actor: &Actor, now: i64) -> (r: Result<IssueInvitation, ApiError>)
    ensures
        match r {
            Ok(input) => canonical_id(body.project_id@, input.project_id) && canonical_id(
                body.recipient_id@,
                input.recipient_id,
            ) && input.actor_id == actor.spec_id() && input.now == now,
            Err(e) => e.0 == ErrorCode::InvalidRequest && ((forall|n: i64|
                !canonical_id(body.project_id@, n)) || (forall|n: i64|
                !canonical_id(body.recipient_id@, n))),
        },
{
    let project_id = id(body.project_id.as_str())?;
    let recipient_id = id(body.recipient_id.as_str())?;
    Ok(IssueInvitation { project_id, recipient_id, actor_id: actor.id(), now })
}

/// The text that reports why issuing stopped.
pub open spec fn failure_detail(failure: IssueFailure) -> Seq<char> {
    match failure {
        IssueFailure::ExpiryOverflow => "invitation expiry overflow"@,
        IssueFailure::RandomUnavailable => "random source unavailable"@,
    }
}

/// How a stopped issuance is reported: like a database failure that is not
/// a busy database, with the reason as its text.
pub fn issue_failure_error(failure: IssueFailure) -> (r: DbError)
    ensures
        r.code is None,
        r.detail@ == failure_detail(failure),
{
    let detail = match failure {
        IssueFailure::ExpiryOverflow => String::from_str("invitation expiry overflow"),
        IssueFailure::RandomUnavailable => String::from_str("random source unavailable"),
    };
    DbError { code: None, detail }
}

/// The response to an issuance: the request's identifiers, the credential and
/// its expiry as decimal Unix seconds; or the error code of each refusal.
pub fn issue_reply(body: IssueRequest, result: Result<IssueOutcome, DbError>) -> (r: Result<
    IssuedInvitation,
    ApiError,
>)
    ensures
        match result {
            Ok(IssueOutcome::Issued { token, expires_at }) => r matches Ok(i) && i.project_id
                == body.project_id && i.recipient_id == body.recipient_id && i.token == token
                && i.expires_at@ == signed_decimal(expires_at as int),
            Ok(IssueOutcome::Forbidden) => r matches Err(e) && e.0 == ErrorCode::Forbidden,
            Ok(IssueOutcome::RecipientNotFound) => r matches Err(e) && e.0
                == ErrorCode::RecipientNotFound,
            Ok(IssueOutcome::AlreadyMember) => r matches Err(e) && e.0 == ErrorCode::AlreadyMember,
            Ok(IssueOutcome::InvitationPending) => r matches Err(e) && e.0
                == ErrorCode::InvitationPending,
            Err(error) => r matches Err(e) && e.0 == (if error.code matches Some(c) && busy_code(c@) {
                ErrorCode::Unavailable
            } else {
                ErrorCode::Internal
            }),
        },
{
    match result {
        Ok(IssueOutcome::Issued { token, expires_at }) => Ok(
            IssuedInvitation {
                project_id: body.project_id,
                recipient_id: body.recipient_id,
                token,
                expires_at: crate::text::decimal_string(expires_at),
            },
        ),
        Ok(IssueOutcome::Forbidden) => Err(ApiError(ErrorCode::Forbidden)),
        Ok(IssueOutcome::RecipientNotFound) => Err(ApiError(ErrorCode::RecipientNotFound)),
        Ok(IssueOutcome::AlreadyMember) => Err(ApiError(ErrorCode::AlreadyMember)),
        Ok(IssueOutcome::InvitationPending) => Err(ApiError(ErrorCode::InvitationPending)),
        Err(error) => Err(database_error(error)),
    }
}

} // verus!
