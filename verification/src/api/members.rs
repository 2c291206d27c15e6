//! Changing a member's role or removing a member over HTTP.
use crate::api::invitations::id;
use crate::api::{Actor, ApiError, ErrorCode, database_error};
use crate::database::{DbError, busy_code};
use crate::members::{ChangeMember, MemberOutcome, MemberRole, role_text};
use crate::text::canonical_id;
use vstd::prelude::*;

verus! {

#[derive(Clone, Copy, Debug, PartialEq, Eq)]
pub enum Role {
    Owner,
    Editor,
    Viewer,
}

pub struct ChangeRoleRequest {
    pub project_id: String,
    pub user_id: String,
    pub role: Role,
}

pub struct RemoveMemberRequest {
    pub project_id: String,
    pub user_id: String,
}

pub struct MemberChange {
    pub project_id: String,
    pub user_id: String,
    /// Null means the membership was removed.
    pub role: Option<Role>,
}

/// The name of a wire role in request and response bodies (`snake_case`).
pub open spec fn wire_role(role: Role) -> Seq<char> {
    match role {
        Role::Owner => seq!['o', 'w', 'n', 'e', 'r'],
        Role::Editor => seq!['e', 'd', 'i', 't', 'o', 'r'],
        Role::Viewer => seq!['v', 'i', 'e', 'w', 'e', 'r'],
    }
}

/// The stored role that a wire role names.
pub open spec fn stored_role(role: Role) -> MemberRole {
    match role {
        Role::Owner => MemberRole::Owner,
        Role::Editor => MemberRole::Editor,
        Role::Viewer => MemberRole::Viewer,
    }
}

pub fn member_role(role: Role) -> (r: MemberRole)
    ensures
        r == stored_role(role),
        role_text(r) == wire_role(role),
{
    match role {
        Role::Owner => MemberRole::Owner,
        Role::Editor => MemberRole::Editor,
        Role::Viewer => MemberRole::Viewer,
    }
}

/// A wire role is stored under its own name, so distinct wire roles stay
/// distinct: the membership a request writes has the role the request (and
/// its reply) names.
pub proof fn law_roles_keep_their_names(a: Role, b: Role)
    ensures
        role_text(stored_role(a)) == wire_role(a),
        stored_role(a) == stored_role(b) ==> a == b,
{
    assert(seq!['e', 'd', 'i', 't', 'o', 'r'][0] != seq!['v', 'i', 'e', 'w', 'e', 'r'][0]);
    assert(seq!['e', 'd', 'i', 't', 'o', 'r'][0] != seq!['o', 'w', 'n', 'e', 'r'][0]);
    assert(seq!['o', 'w', 'n', 'e', 'r'][0] != seq!['v', 'i', 'e', 'w', 'e', 'r'][0]);
}

/// The change that a signed-in actor's request asks for: `Some` role changes
/// it, `None` removes the member.
pub fn apply_input(actor: &Actor, project_id: &str, user_id: &str, role: Option<Role>) -> (r: Result<
    ChangeMember,
    ApiError,
>)
    ensures
        match r {
            Ok(input) => canonical_id(project_id@, input.project_id) && canonical_id(
                user_id@,
                input.user_id,
            ) && input.actor_id == actor.spec_id() && input.role == (match role {
                Some(x) => Some(stored_role(x)),
                None => None,
            }),
            Err(e) => e.0 == ErrorCode::InvalidRequest && ((forall|n: i64|
                !canonical_id(project_id@, n)) || (forall|n: i64| !canonical_id(user_id@, n))),
        },
{
    let project = id(project_id)?;
    let user = id(user_id)?;
    let stored = match role {
        Some(x) => Some(member_role(x)),
        None => None,
    };
    Ok(ChangeMember { project_id: project, user_id: user, actor_id: actor.id(), role: stored })
}

/// The response to a membership change: the request's identifiers and the
/// new role (null after removal), or the error code of each refusal.
pub fn apply_reply(
    project_id: String,
    user_id: String,
    role: Option<Role>,
    result: Result<MemberOutcome, DbError>,
) -> (r: Result<MemberChange, ApiError>)
    ensures
        match result {
            Ok(MemberOutcome::Changed) => r matches Ok(c) && c.project_id == project_id && c.user_id
                == user_id && c.role == role,
            Ok(MemberOutcome::Forbidden) => r matches Err(e) && e.0 == ErrorCode::Forbidden,
            Ok(MemberOutcome::MemberNotFound) => r matches Err(e) && e.0 == ErrorCode::MemberNotFound,
            Ok(MemberOutcome::LastOwner) => r matches Err(e) && e.0 == ErrorCode::LastOwner,
            Err(error) => r matches Err(e) && e.0 == (if error.code matches Some(c) && busy_code(c@) {
                ErrorCode::Unavailable
            } else {
                ErrorCode::Internal
            }),
        },
{
    match result {
        Ok(MemberOutcome::Changed) => Ok(MemberChange { project_id, user_id, role }),
        Ok(MemberOutcome::Forbidden) => Err(ApiError(ErrorCode::Forbidden)),
        Ok(MemberOutcome::MemberNotFound) => Err(ApiError(ErrorCode::MemberNotFound)),
        Ok(MemberOutcome::LastOwner) => Err(ApiError(ErrorCode::LastOwner)),
        Err(error) => Err(database_error(error)),
    }
}

} // verus!
