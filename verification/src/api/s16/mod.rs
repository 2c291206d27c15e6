//! The isolated role-change operation with a closed response contract: every
//! response is one mapping (status, kind, code, message), the public codes are
//! distinct, and the documented responses are grouped by status.
pub mod action;

use crate::api::invitations::id;
use crate::api::members::{ChangeRoleRequest, member_role, stored_role};
use crate::api::{Actor, ErrorCode, code_status};
use crate::crypto::{RandomUnavailable, random_hex};
use crate::database::{DbError, busy_code, is_busy};
use crate::text::{canonical_id, hex};
use action::{
    Acknowledged,
    ActionError,
    ChangeRole,
    FailureKind,
    Rejection,
    StopReason,
    rejection_code,
    rejection_prerequisite,
    rejection_summary,
};
use vstd::prelude::*;

verus! {

pub const OPERATION: &'static str = "memberships.change_role";

pub const PUBLIC_ID: &'static str = "changeMemberRole";

pub const VERSION: u32 = 1;

/// Refusals and failures shared by every operation.
#[derive(Clone, Copy, Debug, PartialEq, Eq)]
pub enum Shared {
    Invalid,
    Unauthenticated,
    Csrf,
    Internal,
    Unavailable,
}

impl Shared {
    /// Every shared mapping, in declaration order.
    pub const VARIANTS: [Shared; 5] = [
        Shared::Invalid,
        Shared::Unauthenticated,
        Shared::Csrf,
        Shared::Internal,
        Shared::Unavailable,
    ];
}

/// One documented response: its status, its kind, its public code (none for
/// success) and its message.
#[derive(Clone, Copy, Debug, PartialEq, Eq)]
pub struct Mapping {
    pub status: u16,
    pub kind: &'static str,
    pub code: Option<&'static str>,
    pub message: &'static str,
}

pub open spec fn rejection_mapping(r: Rejection) -> Mapping {
    Mapping {
        status: match r {
            Rejection::Forbidden => 403,
            Rejection::MemberNotFound => 404,
            Rejection::LastOwner => 409,
        },
        kind: "rejected",
        code: Some(rejection_code(r)),
        message: rejection_summary(r),
    }
}

pub open spec fn shared_mapping(s: Shared) -> Mapping {
    match s {
        Shared::Invalid => Mapping {
            status: 400,
            kind: "refused",
            code: Some("http.invalid_request"),
            message: "Provide valid request fields.",
        },
        Shared::Unauthenticated => Mapping {
            status: 401,
            kind: "refused",
            code: Some("http.unauthenticated"),
            message: "Sign in to continue.",
        },
        Shared::Csrf => Mapping {
            status: 403,
            kind: "refused",
            code: Some("http.csrf_refused"),
            message: "Refresh the session and provide its CSRF token.",
        },
        Shared::Internal => Mapping {
            status: 500,
            kind: "failure",
            code: Some("iris.internal"),
            message: "A normal response could not be produced.",
        },
        Shared::Unavailable => Mapping {
            status: 503,
            kind: "failure",
            code: Some("iris.unavailable"),
            message: "The service is unavailable.",
        },
    }
}

pub open spec fn success_mapping() -> Mapping {
    Mapping { status: 200, kind: "success", code: None, message: "Commit acknowledged" }
}

pub fn rejection(r: Rejection) -> (m: Mapping)
    ensures
        m == rejection_mapping(r),
{
    let status = match r {
        Rejection::Forbidden => 403,
        Rejection::MemberNotFound => 404,
        Rejection::LastOwner => 409,
    };
    let descriptor = r.descriptor();
    Mapping { status, kind: "rejected", code: Some(descriptor.code), message: descriptor.summary }
}

pub fn shared(s: Shared) -> (m: Mapping)
    ensures
        m == shared_mapping(s),
        m.status == (match s {
            Shared::Invalid => 400u16,
            Shared::Unauthenticated => 401u16,
            Shared::Csrf => 403u16,
            Shared::Internal => 500u16,
            Shared::Unavailable => 503u16,
        }),
{
    let (status, kind, code, message) = match s {
        Shared::Invalid => (400, "refused", "http.invalid_request", "Provide valid request fields."),
        Shared::Unauthenticated => (401, "refused", "http.unauthenticated", "Sign in to continue."),
        Shared::Csrf => (
            403,
            "refused",
            "http.csrf_refused",
            "Refresh the session and provide its CSRF token.",
        ),
        Shared::Internal => (
            500,
            "failure",
            "iris.internal",
            "A normal response could not be produced.",
        ),
        Shared::Unavailable => (503, "failure", "iris.unavailable", "The service is unavailable."),
    };
    Mapping { status, kind, code: Some(code), message }
}

pub fn success() -> (m: Mapping)
    ensures
        m == success_mapping(),
{
    Mapping { status: 200, kind: "success", code: None, message: "Commit acknowledged" }
}

#[derive(Debug, PartialEq, Eq)]
pub enum Completion {
    Acknowledged,
}

#[derive(Debug, PartialEq, Eq)]
pub struct SuccessData {
    pub completion: Completion,
}

pub fn project(ack: Acknowledged) -> (d: SuccessData)
    ensures
        d.completion == Completion::Acknowledged,
{
    SuccessData { completion: Completion::Acknowledged }
}

/// A rendered response: the request's identifier, its mapping, and the
/// success data exactly when the mapping has no code.
pub struct Reply {
    pub request_id: String,
    pub mapping: Mapping,
    pub data: Option<SuccessData>,
}

/// The mapping that answers an action's result: success, the rejection, 503
/// when the primary failure was a busy database, and 500 for every other
/// failure (a rejection whose rollback was not confirmed included).
pub open spec fn reply_mapping(result: Result<Acknowledged, ActionError>) -> Mapping {
    match result {
        Ok(_) => success_mapping(),
        Err(ActionError::Rejected(r)) => rejection_mapping(r),
        Err(
            ActionError::Failed { primary: StopReason::Execution { kind: FailureKind::Busy, .. }, .. },
        ) => shared_mapping(Shared::Unavailable),
        Err(ActionError::Failed { .. }) => shared_mapping(Shared::Internal),
    }
}

pub fn reply(request_id: String, result: Result<Acknowledged, ActionError>) -> (r: Reply)
    ensures
        r.request_id == request_id,
        r.mapping == reply_mapping(result),
        r.data is Some <==> r.mapping.code is None,
{
    match result {
        Ok(ack) => Reply { request_id, mapping: success(), data: Some(project(ack)) },
        Err(ActionError::Rejected(r)) => Reply { request_id, mapping: rejection(r), data: None },
        Err(
            ActionError::Failed { primary: StopReason::Execution { kind: FailureKind::Busy, .. }, .. },
        ) => Reply { request_id, mapping: shared(Shared::Unavailable), data: None },
        Err(ActionError::Failed { .. }) => Reply { request_id, mapping: shared(Shared::Internal), data: None },
    }
}

/// The shared mapping that replaces a response rejected earlier in the stack
/// with one of these codes; other responses pass through unchanged.
pub open spec fn rewrite_for(code: ErrorCode) -> Option<Shared> {
    match code {
        ErrorCode::Csrf => Some(Shared::Csrf),
        ErrorCode::Unauthorized => Some(Shared::Unauthenticated),
        ErrorCode::Internal => Some(Shared::Internal),
        ErrorCode::Unavailable => Some(Shared::Unavailable),
        _ => None,
    }
}

pub fn shared_for(code: Option<ErrorCode>) -> (r: Option<Shared>)
    ensures
        r == (match code {
            Some(c) => rewrite_for(c),
            None => None,
        }),
{
    match code {
        Some(ErrorCode::Csrf) => Some(Shared::Csrf),
        Some(ErrorCode::Unauthorized) => Some(Shared::Unauthenticated),
        Some(ErrorCode::Internal) => Some(Shared::Internal),
        Some(ErrorCode::Unavailable) => Some(Shared::Unavailable),
        _ => None,
    }
}

/// A request identifier: `req_` and 32 lower-case hex characters from 16
/// random bytes.
pub fn new_request_id() -> (r: Result<String, RandomUnavailable>)
    ensures
        r matches Ok(s) ==> exists|bytes: Seq<u8>|
            bytes.len() == 16 && s@ == seq!['r', 'e', 'q', '_'] + hex(bytes),
{
    let suffix = random_hex(16)?;
    proof {
        reveal_strlit("req_");
    }
    let mut s = String::from_str("req_");
    s.append(suffix.as_str());
    Ok(s)
}

/// The role change that a request asks for, checked in the order the
/// operation answers: identity first, then the body, then its identifiers.
pub fn endpoint_input(actor: Option<Actor>, body: Option<ChangeRoleRequest>) -> (r: Result<
    (Actor, ChangeRole),
    Shared,
>)
    ensures
        actor is None ==> r == Err::<(Actor, ChangeRole), Shared>(Shared::Unauthenticated),
        actor is Some && body is None ==> r == Err::<(Actor, ChangeRole), Shared>(Shared::Invalid),
        actor is Some && body is Some ==> match r {
            Ok((ra, input)) => ra.spec_id() == actor->0.spec_id() && canonical_id(
                body->0.project_id@,
                input.project_id,
            ) && canonical_id(body->0.user_id@, input.user_id) && input.role == stored_role(
                body->0.role,
            ),
            Err(s) => s == Shared::Invalid && ((forall|n: i64| !canonical_id(body->0.project_id@, n))
                || (forall|n: i64| !canonical_id(body->0.user_id@, n))),
        },
{
    let actor = match actor {
        Some(a) => a,
        None => {
            return Err(Shared::Unauthenticated);
        },
    };
    let body = match body {
        Some(b) => b,
        None => {
            return Err(Shared::Invalid);
        },
    };
    let project_id = match id(body.project_id.as_str()) {
        Ok(n) => n,
        Err(_) => {
            return Err(Shared::Invalid);
        },
    };
    let user_id = match id(body.user_id.as_str()) {
        Ok(n) => n,
        Err(_) => {
            return Err(Shared::Invalid);
        },
    };
    Ok((actor, ChangeRole { project_id, user_id, role: member_role(body.role) }))
}

/// A connection that could not be opened: busy is `Unavailable`, anything
/// else `Internal`.
pub fn connect_failure(error: &DbError) -> (r: Shared)
    ensures
        r == (if error.code matches Some(c) && busy_code(c@) {
            Shared::Unavailable
        } else {
            Shared::Internal
        }),
{
    if is_busy(error) {
        Shared::Unavailable
    } else {
        Shared::Internal
    }
}

/// Every documented response: success, then each rejection, then each shared
/// mapping, in declaration order.
pub open spec fn response_table() -> Seq<Mapping> {
    seq![
        success_mapping(),
        rejection_mapping(Rejection::Forbidden),
        rejection_mapping(Rejection::MemberNotFound),
        rejection_mapping(Rejection::LastOwner),
        shared_mapping(Shared::Invalid),
        shared_mapping(Shared::Unauthenticated),
        shared_mapping(Shared::Csrf),
        shared_mapping(Shared::Internal),
        shared_mapping(Shared::Unavailable),
    ]
}

pub fn responses() -> (r: Vec<Mapping>)
    ensures
        r@ == response_table(),
{
    let mut r: Vec<Mapping> = Vec::new();
    r.push(success());
    let mut i: usize = 0;
    while i < 3
        invariant
            i <= 3,
            r@ == response_table().subrange(0, 1 + i as int),
        decreases 3 - i,
    {
        let x = Rejection::VARIANTS[i];
        assert(x == response_rejection(i as int));
        r.push(rejection(x));
        assert(r@ =~= response_table().subrange(0, 2 + i as int));
        i = i + 1;
    }
    let mut j: usize = 0;
    while j < 5
        invariant
            j <= 5,
            r@ == response_table().subrange(0, 4 + j as int),
        decreases 5 - j,
    {
        let x = Shared::VARIANTS[j];
        assert(x == response_shared(j as int));
        r.push(shared(x));
        assert(r@ =~= response_table().subrange(0, 5 + j as int));
        j = j + 1;
    }
    assert(r@ =~= response_table());
    r
}

spec fn response_rejection(i: int) -> Rejection {
    if i == 0 {
        Rejection::Forbidden
    } else if i == 1 {
        Rejection::MemberNotFound
    } else {
        Rejection::LastOwner
    }
}

spec fn response_shared(i: int) -> Shared {
    if i == 0 {
        Shared::Invalid
    } else if i == 1 {
        Shared::Unauthenticated
    } else if i == 2 {
        Shared::Csrf
    } else if i == 3 {
        Shared::Internal
    } else {
        Shared::Unavailable
    }
}

/// The entries of `table` documented under `status`, in table order.
pub open spec fn with_status(table: Seq<Mapping>, status: u16) -> Seq<Mapping>
    decreases table.len(),
{
    if table.len() == 0 {
        Seq::empty()
    } else {
        let rest = with_status(table.drop_last(), status);
        if table.last().status == status {
            rest.push(table.last())
        } else {
            rest
        }
    }
}

/// `statuses` lists, in increasing order and once each, the statuses that
/// occur in `table`.
pub open spec fn lists_statuses(statuses: Seq<u16>, table: Seq<Mapping>) -> bool {
    &&& forall|i: int, j: int| 0 <= i < j < statuses.len() ==> statuses[i] < statuses[j]
    &&& forall|k: int| 0 <= k < table.len() ==> statuses.contains(#[trigger] table[k].status)
    &&& forall|i: int|
        0 <= i < statuses.len() ==> exists|k: int| 0 <= k < table.len() && table[k].status == #[trigger] statuses[i]
}

/// The statuses of `table`, increasing, each once.
pub fn distinct_statuses(table: &Vec<Mapping>) -> (r: Vec<u16>)
    ensures
        lists_statuses(r@, table@),
{
    let mut r: Vec<u16> = Vec::new();
    let mut k: usize = 0;
    while k < table.len()
        invariant
            k <= table@.len(),
            lists_statuses(r@, table@.subrange(0, k as int)),
        decreases table@.len() - k,
    {
        let status = table[k].status;
        let ghost before = r@;
        let mut pos: usize = 0;
        while pos < r.len() && r[pos] < status
            invariant
                r@ == before,
                pos <= r@.len(),
                forall|i: int| 0 <= i < pos ==> r@[i] < status,
            decreases r@.len() - pos,
        {
            pos = pos + 1;
        }
        let ghost prefix = table@.subrange(0, k as int);
        let ghost extended = table@.subrange(0, k + 1);
        assert(extended =~= prefix.push(table@[k as int]));
        if pos < r.len() && r[pos] == status {
            assert(r@.contains(status));
            assert forall|i: int| 0 <= i < r@.len() implies exists|m: int|
                0 <= m < extended.len() && extended[m].status == #[trigger] r@[i] by {
                let m = choose|m: int| 0 <= m < prefix.len() && prefix[m].status == r@[i];
                assert(extended[m] == prefix[m]);
            }
            assert forall|m: int| 0 <= m < extended.len() implies r@.contains(
                #[trigger] extended[m].status,
            ) by {
                if m < prefix.len() {
                    assert(extended[m] == prefix[m]);
                }
            }
        } else {
            r.insert(pos, status);
            assert(r@ == before.subrange(0, pos as int).push(status) + before.subrange(
                pos as int,
                before.len() as int,
            ));
            assert(r@[pos as int] == status);
            assert forall|i: int, j: int| 0 <= i < j < r@.len() implies r@[i] < r@[j] by {
                if j < pos {
                    assert(r@[i] == before[i] && r@[j] == before[j]);
                } else if j == pos {
                    assert(r@[i] == before[i]);
                } else if i < pos {
                    assert(r@[i] == before[i] && r@[j] == before[j - 1]);
                    assert(before[pos as int] >= status);
                    if j - 1 > pos {
                        assert(before[pos as int] < before[j - 1]);
                    }
                } else if i == pos {
                    assert(r@[j] == before[j - 1]);
                    assert(before[pos as int] > status);
                    if j - 1 > pos {
                        assert(before[pos as int] < before[j - 1]);
                    }
                } else {
                    assert(r@[i] == before[i - 1] && r@[j] == before[j - 1]);
                }
            }
            assert forall|m: int| 0 <= m < extended.len() implies r@.contains(
                #[trigger] extended[m].status,
            ) by {
                if m < prefix.len() {
                    assert(extended[m] == prefix[m]);
                    assert(before.contains(prefix[m].status));
                    let i = choose|i: int| 0 <= i < before.len() && before[i] == prefix[m].status;
                    if i < pos {
                        assert(r@[i] == before[i]);
                    } else {
                        assert(r@[i + 1] == before[i]);
                    }
                } else {
                    assert(r@[pos as int] == status);
                }
            }
            assert forall|i: int| 0 <= i < r@.len() implies exists|m: int|
                0 <= m < extended.len() && extended[m].status == #[trigger] r@[i] by {
                if i == pos {
                    assert(extended[k as int].status == status);
                } else {
                    let bi = if i < pos {
                        i
                    } else {
                        i - 1
                    };
                    assert(r@[i] == before[bi]);
                    let m = choose|m: int| 0 <= m < prefix.len() && prefix[m].status == before[bi];
                    assert(extended[m] == prefix[m]);
                }
            }
        }
        k = k + 1;
    }
    assert(table@.subrange(0, table@.len() as int) =~= table@);
    r
}

/// The entries of `table` whose status is `status`, in table order.
pub fn entries_with_status(table: &Vec<Mapping>, status: u16) -> (r: Vec<Mapping>)
    ensures
        r@ == with_status(table@, status),
{
    let mut r: Vec<Mapping> = Vec::new();
    let mut k: usize = 0;
    while k < table.len()
        invariant
            k <= table@.len(),
            r@ == with_status(table@.subrange(0, k as int), status),
        decreases table@.len() - k,
    {
        let ghost next = table@.subrange(0, k + 1);
        assert(next.drop_last() =~= table@.subrange(0, k as int));
        let m = table[k];
        if m.status == status {
            r.push(m);
        }
        k = k + 1;
    }
    assert(table@.subrange(0, table@.len() as int) =~= table@);
    r
}

/// The documented responses grouped by status: statuses increasing, each
/// group holding that status's entries in table order.
pub fn status_groups(table: &Vec<Mapping>) -> (g: Vec<(u16, Vec<Mapping>)>)
    ensures
        lists_statuses(Seq::new(g@.len(), |i: int| g@[i].0), table@),
        forall|i: int| 0 <= i < g@.len() ==> (#[trigger] g@[i]).1@ == with_status(table@, g@[i].0),
{
    let statuses = distinct_statuses(table);
    let mut g: Vec<(u16, Vec<Mapping>)> = Vec::new();
    let mut i: usize = 0;
    while i < statuses.len()
        invariant
            i <= statuses@.len(),
            g@.len() == i,
            forall|j: int| 0 <= j < i ==> (#[trigger] g@[j]).0 == statuses@[j],
            forall|j: int| 0 <= j < i ==> (#[trigger] g@[j]).1@ == with_status(table@, g@[j].0),
        decreases statuses@.len() - i,
    {
        let status = statuses[i];
        let entries = entries_with_status(table, status);
        g.push((status, entries));
        i = i + 1;
    }
    assert(Seq::new(g@.len(), |i: int| g@[i].0) =~= statuses@);
    g
}

/// The prerequisite of each rejection that has one, keyed by its code, in
/// declaration order.
pub fn prerequisites() -> (r: Vec<(&'static str, &'static str)>)
    ensures
        r@ == seq![(rejection_code(Rejection::LastOwner), rejection_prerequisite(Rejection::LastOwner)->0)],
{
    let mut r: Vec<(&'static str, &'static str)> = Vec::new();
    let mut i: usize = 0;
    while i < 3
        invariant
            i <= 3,
            i <= 2 ==> r@.len() == 0,
            i == 3 ==> r@ == seq![(rejection_code(Rejection::LastOwner), rejection_prerequisite(Rejection::LastOwner)->0)],
        decreases 3 - i,
    {
        let x = Rejection::VARIANTS[i];
        assert(x == response_rejection(i as int));
        let d = x.descriptor();
        if let Some(p) = d.prerequisite {
            r.push((d.code, p));
        }
        i = i + 1;
    }
    r
}

/// A shared refusal or failure answers with the status of the error code it
/// stands for: invalid request 400, unauthenticated 401, CSRF 403, internal
/// 500, unavailable 503; and a response rewritten at the boundary keeps the
/// status of the code it was rejected with.
pub proof fn law_shared_statuses_follow_their_codes(code: ErrorCode)
    ensures
        shared_mapping(Shared::Invalid).status == code_status(ErrorCode::InvalidRequest),
        shared_mapping(Shared::Unauthenticated).status == code_status(ErrorCode::Unauthorized),
        shared_mapping(Shared::Csrf).status == code_status(ErrorCode::Csrf),
        shared_mapping(Shared::Internal).status == code_status(ErrorCode::Internal),
        shared_mapping(Shared::Unavailable).status == code_status(ErrorCode::Unavailable),
        shared_mapping(Shared::Invalid).status == 400,
        shared_mapping(Shared::Unauthenticated).status == 401,
        shared_mapping(Shared::Csrf).status == 403,
        shared_mapping(Shared::Internal).status == 500,
        shared_mapping(Shared::Unavailable).status == 503,
        rewrite_for(code) matches Some(s) ==> shared_mapping(s).status == code_status(code),
{
}

/// The operation's response contract is closed: every reply to an action's
/// result, and every shared refusal or failure, is one of the documented
/// responses.
pub proof fn law_every_reply_is_documented(result: Result<Acknowledged, ActionError>, s: Shared)
    ensures
        response_table().contains(reply_mapping(result)),
        response_table().contains(shared_mapping(s)),
{
    let t = response_table();
    assert(t[0] == success_mapping());
    assert(t[1] == rejection_mapping(Rejection::Forbidden));
    assert(t[2] == rejection_mapping(Rejection::MemberNotFound));
    assert(t[3] == rejection_mapping(Rejection::LastOwner));
    assert(t[4] == shared_mapping(Shared::Invalid));
    assert(t[5] == shared_mapping(Shared::Unauthenticated));
    assert(t[6] == shared_mapping(Shared::Csrf));
    assert(t[7] == shared_mapping(Shared::Internal));
    assert(t[8] == shared_mapping(Shared::Unavailable));
}

/// The public codes of the documented responses are pairwise distinct, so a
/// code identifies its response.
pub proof fn law_public_codes_are_distinct()
    ensures
        forall|i: int, j: int|
            0 <= i < j < response_table().len() && (#[trigger] response_table()[i]).code is Some
                && (#[trigger] response_table()[j]).code is Some ==> response_table()[i].code
                != response_table()[j].code,
{
    reveal_strlit("memberships.forbidden");
    reveal_strlit("memberships.member_not_found");
    reveal_strlit("memberships.last_owner");
    reveal_strlit("http.invalid_request");
    reveal_strlit("http.unauthenticated");
    reveal_strlit("http.csrf_refused");
    reveal_strlit("iris.internal");
    reveal_strlit("iris.unavailable");
    let t = response_table();
    assert forall|i: int, j: int|
        0 <= i < j < t.len() && (#[trigger] t[i]).code is Some && (#[trigger] t[j]).code is Some implies t[i].code
        != t[j].code by {
        let a = t[i].code->0;
        let b = t[j].code->0;
        if a == b {
            assert(a@ == b@);
            assert(a@[a@.len() - 1] == b@[b@.len() - 1]);
            assert(a@.len() == b@.len());
        }
    }
}

} // verus!
