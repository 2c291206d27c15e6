//! The database tables that the invitation and membership rules read and
//! write, as mathematical values. The statements that the caller runs on the
//! real database are documented against these.
use vstd::prelude::*;

verus! {

/// A row of the `invitations` table, keyed elsewhere by its token digest.
pub struct StoredInvitation {
    pub project_id: i64,
    pub recipient_id: i64,
    pub role: String,
    pub expires_at: i64,
    pub accepted_at: Option<i64>,
    pub accepted_by: Option<i64>,
}

/// The `users`, `memberships` and `invitations` tables. A membership maps
/// `(project_id, user_id)` to its role text; an invitation is found by the
/// SHA-256 digest of its token.
pub struct Tables {
    pub users: Set<i64>,
    pub memberships: Map<(i64, i64), Seq<char>>,
    pub invitations: Map<Seq<u8>, StoredInvitation>,
}

/// The role text of a project owner.
pub open spec fn owner_text() -> Seq<char> {
    seq!['o', 'w', 'n', 'e', 'r']
}

/// The role text of an editor.
pub open spec fn editor_text() -> Seq<char> {
    seq!['e', 'd', 'i', 't', 'o', 'r']
}

/// The role text of a viewer.
pub open spec fn viewer_text() -> Seq<char> {
    seq!['v', 'i', 'e', 'w', 'e', 'r']
}

/// `user` holds the owner role in `project`.
pub open spec fn is_owner(memberships: Map<(i64, i64), Seq<char>>, project: i64, user: i64) -> bool {
    memberships.dom().contains((project, user)) && memberships[(project, user)] == owner_text()
}

/// The memberships that make someone an owner of `project`.
pub open spec fn owners(memberships: Map<(i64, i64), Seq<char>>, project: i64) -> Set<(i64, i64)> {
    memberships.dom().filter(|k: (i64, i64)| k.0 == project && memberships[k] == owner_text())
}

/// `project` has at least one owner.
pub open spec fn has_owner(memberships: Map<(i64, i64), Seq<char>>, project: i64) -> bool {
    exists|u: i64| is_owner(memberships, project, u)
}

} // verus!
