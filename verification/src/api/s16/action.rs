//! The role-change action with an explicit account of how it stopped: the
//! business rejection or execution failure, and whether the rollback was
//! confirmed. No raw driver text is retained.
use crate::api::Actor;
use crate::database::{DbError, busy_code, is_busy};
use crate::members::{ChangeMember, MemberAction, MemberOutcome, MemberRole};
use vstd::prelude::*;

verus! {

pub struct ChangeRole {
    pub project_id: i64,
    pub user_id: i64,
    pub role: MemberRole,
}

#[derive(Debug)]
pub struct Acknowledged;

#[derive(Clone, Copy, Debug, PartialEq, Eq)]
pub enum Rejection {
    Forbidden,
    MemberNotFound,
    LastOwner,
}

impl Rejection {
    /// Every rejection, in declaration order.
    pub const VARIANTS: [Rejection; 3] = [Rejection::Forbidden, Rejection::MemberNotFound, Rejection::LastOwner];
}

pub struct Descriptor {
    pub code: &'static str,
    pub summary: &'static str,
    pub rule: Option<&'static str>,
    pub prerequisite: Option<&'static str>,
}

/// The public code of each rejection.
pub open spec fn rejection_code(r: Rejection) -> &'static str {
    match r {
        Rejection::Forbidden => "memberships.forbidden",
        Rejection::MemberNotFound => "memberships.member_not_found",
        Rejection::LastOwner => "memberships.last_owner",
    }
}

/// The summary shown for each rejection.
pub open spec fn rejection_summary(r: Rejection) -> &'static str {
    match r {
        Rejection::Forbidden => "This operation is not permitted.",
        Rejection::MemberNotFound => "Member not found.",
        Rejection::LastOwner => "The project must retain an owner.",
    }
}

/// The rule a rejection enforces, and what must hold before the same intent
/// can succeed; only the last-owner rejection has them.
pub open spec fn rejection_rule(r: Rejection) -> Option<&'static str> {
    match r {
        Rejection::LastOwner => Some("memberships.at_least_one_owner"),
        _ => None,
    }
}

pub open spec fn rejection_prerequisite(r: Rejection) -> Option<&'static str> {
    match r {
        Rejection::LastOwner => Some("memberships.another_owner_required"),
        _ => None,
    }
}

impl Rejection {
    pub fn descriptor(self) -> (d: Descriptor)
        ensures
            d.code == rejection_code(self),
            d.summary == rejection_summary(self),
            d.rule == rejection_rule(self),
            d.prerequisite == rejection_prerequisite(self),
    {
        let (code, summary, rule, prerequisite) = match self {
            Self::Forbidden => ("memberships.forbidden", "This operation is not permitted.", None, None),
            Self::MemberNotFound => ("memberships.member_not_found", "Member not found.", None, None),
            Self::LastOwner => (
                "memberships.last_owner",
                "The project must retain an owner.",
                Some("memberships.at_least_one_owner"),
                Some("memberships.another_owner_required"),
            ),
        };
        Descriptor { code, summary, rule, prerequisite }
    }
}

#[derive(Debug, PartialEq, Eq)]
pub enum Stage {
    Begin,
    Body,
    Commit,
}

#[derive(Debug, PartialEq, Eq)]
pub enum FailureKind {
    Busy,
    Other,
}

#[derive(Debug, PartialEq, Eq)]
pub enum StopReason {
    Rejected(Rejection),
    Execution { stage: Stage, kind: FailureKind },
}

#[derive(Debug, PartialEq, Eq)]
pub enum Cleanup {
    RollbackAcknowledged,
    Unconfirmed { rollback_error: Option<FailureKind> },
}

#[derive(Debug, PartialEq, Eq)]
pub enum ActionError {
    Rejected(Rejection),
    Failed { primary: StopReason, cleanup: Cleanup },
}

/// The kind of a driver failure.
pub open spec fn kind_of(error: DbError) -> FailureKind {
    if error.code matches Some(c) && busy_code(c@) {
        FailureKind::Busy
    } else {
        FailureKind::Other
    }
}

pub fn failure_kind(error: &DbError) -> (k: FailureKind)
    ensures
        k == kind_of(*error),
{
    if is_busy(error) {
        FailureKind::Busy
    } else {
        FailureKind::Other
    }
}

pub fn execution(stage: Stage, error: DbError) -> (r: StopReason)
    ensures
        r == (StopReason::Execution { stage, kind: kind_of(error) }),
{
    let kind = failure_kind(&error);
    StopReason::Execution { stage, kind }
}

/// How an action that stopped ends, given its rollback: a rejection whose
/// rollback was confirmed is just that rejection; every other stop is a
/// failure that records the primary reason and whether cleanup was confirmed.
pub open spec fn finalized(primary: StopReason, rollback: Result<(), DbError>) -> ActionError {
    match (primary, rollback) {
        (StopReason::Rejected(r), Ok(())) => ActionError::Rejected(r),
        (primary, Ok(())) => ActionError::Failed { primary, cleanup: Cleanup::RollbackAcknowledged },
        (primary, Err(error)) => ActionError::Failed {
            primary,
            cleanup: Cleanup::Unconfirmed { rollback_error: Some(kind_of(error)) },
        },
    }
}

// Finalization only, not a transaction executor. No raw driver text is retained.
pub fn finalize(primary: StopReason, rollback: Result<(), DbError>) -> (r: ActionError)
    ensures
        r == finalized(primary, rollback),
{
    match (primary, rollback) {
        (StopReason::Rejected(r), Ok(())) => ActionError::Rejected(r),
        (primary, result) => ActionError::Failed {
            primary,
            cleanup: match result {
                Ok(()) => Cleanup::RollbackAcknowledged,
                Err(error) => Cleanup::Unconfirmed { rollback_error: Some(failure_kind(&error)) },
            },
        },
    }
}

/// The membership change that a role change is: the same checks, with the
/// role always set, never removed.
pub fn as_member_change(actor: &Actor, input: &ChangeRole) -> (r: ChangeMember)
    ensures
        r.project_id == input.project_id,
        r.user_id == input.user_id,
        r.actor_id == actor.spec_id(),
        r.role == Some(input.role),
{
    ChangeMember {
        project_id: input.project_id,
        user_id: input.user_id,
        actor_id: actor.id(),
        role: Some(input.role),
    }
}

/// The rejection that a refused membership change stands for.
pub open spec fn rejection_for(outcome: MemberOutcome) -> Option<Rejection> {
    match outcome {
        MemberOutcome::Changed => None,
        MemberOutcome::Forbidden => Some(Rejection::Forbidden),
        MemberOutcome::MemberNotFound => Some(Rejection::MemberNotFound),
        MemberOutcome::LastOwner => Some(Rejection::LastOwner),
    }
}

/// When the body ends with `outcome`: `None` to commit, or the reason to roll
/// back.
pub fn body_outcome(outcome: MemberOutcome) -> (r: Option<StopReason>)
    ensures
        r == (match rejection_for(outcome) {
            Some(x) => Some(StopReason::Rejected(x)),
            None => None,
        }),
{
    match outcome {
        MemberOutcome::Changed => None,
        MemberOutcome::Forbidden => Some(StopReason::Rejected(Rejection::Forbidden)),
        MemberOutcome::MemberNotFound => Some(StopReason::Rejected(Rejection::MemberNotFound)),
        MemberOutcome::LastOwner => Some(StopReason::Rejected(Rejection::LastOwner)),
    }
}

/// The transaction could not begin: nothing ran, and no rollback is claimed.
pub fn begin_failed(error: DbError) -> (r: ActionError)
    ensures
        r == (ActionError::Failed {
            primary: StopReason::Execution { stage: Stage::Begin, kind: kind_of(error) },
            cleanup: Cleanup::Unconfirmed { rollback_error: None },
        }),
{
    ActionError::Failed {
        primary: execution(Stage::Begin, error),
        cleanup: Cleanup::Unconfirmed { rollback_error: None },
    }
}

/// The commit of a completed body: acknowledged, or a commit failure whose
/// effect is not claimed either way.
pub fn committed(result: Result<(), DbError>) -> (r: Result<Acknowledged, ActionError>)
    ensures
        result is Ok ==> r is Ok,
        result matches Err(e) ==> r == Err::<Acknowledged, ActionError>(
            ActionError::Failed {
                primary: StopReason::Execution { stage: Stage::Commit, kind: kind_of(e) },
                cleanup: Cleanup::Unconfirmed { rollback_error: None },
            },
        ),
{
    match result {
        Ok(()) => Ok(Acknowledged),
        Err(e) => Err(
            ActionError::Failed {
                primary: execution(Stage::Commit, e),
                cleanup: Cleanup::Unconfirmed { rollback_error: None },
            },
        ),
    }
}

/// A failure is reported as a rejection only when it was a rejection and its
/// rollback was confirmed; a failed cleanup never passes for a rejection.
pub proof fn law_failed_cleanup_is_never_a_rejection(primary: StopReason, error: DbError)
    ensures
        finalized(primary, Err(error)) is Failed,
        finalized(primary, Err(error))->primary == primary,
{
}

} // verus!
