//! Changing and removing project memberships. Authorization, owner counting
//! and the write share one `BEGIN IMMEDIATE` transaction, so a concurrently
//! demoted actor cannot use stale authority.
use crate::tables::{Tables, editor_text, has_owner, is_owner, owner_text, owners, viewer_text};
use vstd::prelude::*;

verus! {

#[derive(Clone, Copy, Debug, PartialEq, Eq)]
pub enum MemberRole {
    Owner,
    Editor,
    Viewer,
}

/// The role text stored in the `memberships` table.
pub open spec fn role_text(role: MemberRole) -> Seq<char> {
    match role {
        MemberRole::Owner => owner_text(),
        MemberRole::Editor => editor_text(),
        MemberRole::Viewer => viewer_text(),
    }
}

impl MemberRole {
    pub fn as_str(self) -> (r: &'static str)
        ensures
            r@ == role_text(self),
    {
        proof {
            reveal_strlit("owner");
            reveal_strlit("editor");
            reveal_strlit("viewer");
        }
        let r = match self {
            Self::Owner => "owner",
            Self::Editor => "editor",
            Self::Viewer => "viewer",
        };
        assert(r@ =~= role_text(self));
        r
    }
}

pub struct ChangeMember {
    pub project_id: i64,
    pub user_id: i64,
    pub actor_id: i64,
    /// None removes the membership; Some changes its role.
    pub role: Option<MemberRole>,
}

#[derive(Debug, PartialEq)]
pub enum MemberOutcome {
    Changed,
    Forbidden,
    MemberNotFound,
    LastOwner,
}

/// The next statement of a membership change, or how it ends.
pub enum MemberAction {
    /// `SELECT EXISTS(SELECT 1 FROM memberships WHERE project_id=? AND
    /// user_id=?actor AND role='owner')`
    CheckActorIsOwner,
    /// `SELECT role FROM memberships WHERE project_id=? AND user_id=?`
    ReadRole,
    /// `SELECT COUNT(*) FROM memberships WHERE project_id=? AND role='owner'`
    CountOwners,
    /// `UPDATE memberships SET role=? WHERE project_id=? AND user_id=?`
    SetRole(MemberRole),
    /// `DELETE FROM memberships WHERE project_id=? AND user_id=?`
    Remove,
    /// Commit, then report the outcome.
    Finish(MemberOutcome),
}

/// The write that a permitted change makes.
pub open spec fn write_for(input: ChangeMember) -> MemberAction {
    match input.role {
        Some(role) => MemberAction::SetRole(role),
        None => MemberAction::Remove,
    }
}

/// A change takes the target's owner role away: the target is an owner and
/// is removed or given another role.
pub open spec fn takes_ownership(current: Seq<char>, input: ChangeMember) -> bool {
    current == owner_text() && input.role != Some(MemberRole::Owner)
}

/// The first statement: is the actor an owner of the project?
pub fn member_start(input: &ChangeMember) -> (r: MemberAction)
    ensures
        r == MemberAction::CheckActorIsOwner,
{
    MemberAction::CheckActorIsOwner
}

/// What follows the owner check: only owners may change memberships.
pub open spec fn after_owner_check(actor_is_owner: bool, r: MemberAction) -> bool {
    if actor_is_owner {
        r == MemberAction::ReadRole
    } else {
        r == MemberAction::Finish(MemberOutcome::Forbidden)
    }
}

/// After the owner check (see `after_owner_check`).
pub fn member_owner_checked(input: &ChangeMember, actor_is_owner: bool) -> (r: MemberAction)
    ensures
        after_owner_check(actor_is_owner, r),
{
    if actor_is_owner {
        MemberAction::ReadRole
    } else {
        MemberAction::Finish(MemberOutcome::Forbidden)
    }
}

/// What follows reading the target's role: an absent member is not found;
/// taking an owner role away needs the owner count; anything else is written.
pub open spec fn after_role_read(input: ChangeMember, current: Option<Seq<char>>, r: MemberAction) -> bool {
    match current {
        None => r == MemberAction::Finish(MemberOutcome::MemberNotFound),
        Some(c) => if takes_ownership(c, input) {
            r == MemberAction::CountOwners
        } else {
            r == write_for(input)
        },
    }
}

/// After reading the target's role (see `after_role_read`).
pub fn member_role_read(input: &ChangeMember, current: &Option<String>) -> (r: MemberAction)
    ensures
        after_role_read(
            *input,
            match current {
                Some(c) => Some(c@),
                None => None,
            },
            r,
        ),
{
    match current {
        None => MemberAction::Finish(MemberOutcome::MemberNotFound),
        Some(c) => {
            let owner = String::from_str("owner");
            proof {
                reveal_strlit("owner");
                assert(owner@ =~= owner_text());
            }
            let target_is_owner = *c == owner;
            let keeps_owner = match input.role {
                Some(MemberRole::Owner) => true,
                _ => false,
            };
            if target_is_owner && !keeps_owner {
                MemberAction::CountOwners
            } else {
                match input.role {
                    Some(role) => MemberAction::SetRole(role),
                    None => MemberAction::Remove,
                }
            }
        },
    }
}

/// What follows counting the owners: the last owner cannot give up the role.
pub open spec fn after_owner_count(input: ChangeMember, owner_count: int, r: MemberAction) -> bool {
    if owner_count == 1 {
        r == MemberAction::Finish(MemberOutcome::LastOwner)
    } else {
        r == write_for(input)
    }
}

/// After counting the owners (see `after_owner_count`).
pub fn member_owners_counted(input: &ChangeMember, owner_count: i64) -> (r: MemberAction)
    ensures
        after_owner_count(*input, owner_count as int, r),
{
    if owner_count == 1 {
        MemberAction::Finish(MemberOutcome::LastOwner)
    } else {
        match input.role {
            Some(role) => MemberAction::SetRole(role),
            None => MemberAction::Remove,
        }
    }
}

/// After the write: the change is made.
pub fn member_written(input: &ChangeMember) -> (r: MemberAction)
    ensures
        r == MemberAction::Finish(MemberOutcome::Changed),
{
    MemberAction::Finish(MemberOutcome::Changed)
}

/// What the role read returns from `memberships`.
pub open spec fn read_role(memberships: Map<(i64, i64), Seq<char>>, input: ChangeMember) -> Option<Seq<char>> {
    if memberships.dom().contains((input.project_id, input.user_id)) {
        Some(memberships[(input.project_id, input.user_id)])
    } else {
        None
    }
}

/// The memberships after a write statement; any other action writes nothing.
pub open spec fn perform_write(memberships: Map<(i64, i64), Seq<char>>, input: ChangeMember, action: MemberAction) -> Map<(i64, i64), Seq<char>> {
    match action {
        MemberAction::SetRole(role) => memberships.insert(
            (input.project_id, input.user_id),
            role_text(role),
        ),
        MemberAction::Remove => memberships.remove((input.project_id, input.user_id)),
        _ => memberships,
    }
}

/// The whole change on `memberships`, each statement answered from it: the
/// memberships it commits and the outcome it reports.
pub open spec fn membership_change(memberships: Map<(i64, i64), Seq<char>>, input: ChangeMember) -> (
    Map<(i64, i64), Seq<char>>,
    MemberOutcome,
) {
    let key = (input.project_id, input.user_id);
    if !is_owner(memberships, input.project_id, input.actor_id) {
        (memberships, MemberOutcome::Forbidden)
    } else if !memberships.dom().contains(key) {
        (memberships, MemberOutcome::MemberNotFound)
    } else if takes_ownership(memberships[key], input) && owners(memberships, input.project_id).len()
        == 1 {
        (memberships, MemberOutcome::LastOwner)
    } else {
        (perform_write(memberships, input, write_for(input)), MemberOutcome::Changed)
    }
}

/// The membership steps perform `membership_change`: with each statement
/// answered from the memberships that the transaction holds locked, the
/// change stops with `membership_change`'s refusal, or makes its one write
/// and reports `Changed`.
pub proof fn law_steps_perform_membership_change(
    memberships: Map<(i64, i64), Seq<char>>,
    input: ChangeMember,
    checked: MemberAction,
    read: MemberAction,
    counted: MemberAction,
)
    requires
        memberships.dom().finite(),
        after_owner_check(is_owner(memberships, input.project_id, input.actor_id), checked),
        checked is ReadRole ==> after_role_read(input, read_role(memberships, input), read),
        read is CountOwners ==> after_owner_count(
            input,
            owners(memberships, input.project_id).len() as int,
            counted,
        ),
    ensures
        checked matches MemberAction::Finish(o) ==> membership_change(memberships, input) == (
            memberships,
            o,
        ),
        checked is ReadRole ==> (read matches MemberAction::Finish(o) ==> membership_change(
            memberships,
            input,
        ) == (memberships, o)),
        checked is ReadRole && read is CountOwners ==> (counted matches MemberAction::Finish(o)
            ==> membership_change(memberships, input) == (memberships, o)),
        checked is ReadRole && (read is SetRole || read is Remove) ==> membership_change(
            memberships,
            input,
        ) == (perform_write(memberships, input, read), MemberOutcome::Changed),
        checked is ReadRole && read is CountOwners && (counted is SetRole || counted is Remove)
            ==> membership_change(memberships, input) == (
            perform_write(memberships, input, counted),
            MemberOutcome::Changed,
        ),
{
}

proof fn lemma_another_owner(m: Map<(i64, i64), Seq<char>>, project: i64, key: (i64, i64))
    requires
        m.dom().finite(),
        owners(m, project).contains(key),
        owners(m, project).len() != 1,
    ensures
        exists|u: i64| u != key.1 && is_owner(m, project, u),
{
    let set = owners(m, project);
    m.dom().lemma_len_filter(|k: (i64, i64)| k.0 == project && m[k] == owner_text());
    assert(set.finite());
    let rest = set.remove(key);
    vstd::set::axiom_set_remove_finite(set, key);
    vstd::set::axiom_set_remove_len(set, key);
    assert(rest.len() >= 1);
    vstd::set::axiom_set_choose_len(rest);
    let other = rest.choose();
    assert(rest.contains(other));
    assert(other != key);
    assert(set.contains(other));
    assert(other.0 == project);
    assert(is_owner(m, project, other.1));
}

/// A project with an owner keeps one: no accepted change removes or demotes
/// the last owner, however it is combined with self-service.
pub proof fn law_project_keeps_an_owner(m: Map<(i64, i64), Seq<char>>, input: ChangeMember)
    requires
        m.dom().finite(),
        has_owner(m, input.project_id),
    ensures
        has_owner(membership_change(m, input).0, input.project_id),
{
    let p = input.project_id;
    let key = (p, input.user_id);
    let after = membership_change(m, input).0;
    if membership_change(m, input).1 is Changed {
        if input.user_id != input.actor_id {
            assert(is_owner(after, p, input.actor_id));
        } else if !takes_ownership(m[key], input) {
            assert(is_owner(after, p, input.actor_id));
        } else {
            assert(owners(m, p).contains(key));
            lemma_another_owner(m, p, key);
            let u = choose|u: i64| u != key.1 && is_owner(m, p, u);
            assert(is_owner(after, p, u));
        }
    }
}

/// A refused change writes nothing; a permitted one touches only the target's
/// membership, and setting the role it already has changes nothing.
pub proof fn law_refusals_do_not_write(m: Map<(i64, i64), Seq<char>>, input: ChangeMember)
    ensures
        !(membership_change(m, input).1 is Changed) ==> membership_change(m, input).0 == m,
        forall|k: (i64, i64)|
            k != (input.project_id, input.user_id) ==> (#[trigger] membership_change(m, input).0.dom().contains(k)
                == m.dom().contains(k) && (m.dom().contains(k) ==> membership_change(m, input).0[k]
                == m[k])),
        input.role matches Some(r) && m.dom().contains((input.project_id, input.user_id)) && m[(
            input.project_id,
            input.user_id,
        )] == role_text(r) && is_owner(m, input.project_id, input.actor_id) ==> membership_change(
            m,
            input,
        ) == (m, MemberOutcome::Changed),
{
    let key = (input.project_id, input.user_id);
    if let Some(r) = input.role {
        if m.dom().contains(key) && m[key] == role_text(r) && is_owner(m, input.project_id, input.actor_id) {
            assert(m.insert(key, role_text(r)) =~= m);
        }
    }
}

proof fn lemma_owners_finite(m: Map<(i64, i64), Seq<char>>, project: i64)
    requires
        m.dom().finite(),
    ensures
        owners(m, project).finite(),
{
    m.dom().lemma_len_filter(|k: (i64, i64)| k.0 == project && m[k] == owner_text());
}

/// Two distinct owners make at least two owner memberships.
proof fn lemma_two_owners(m: Map<(i64, i64), Seq<char>>, project: i64, a: i64, b: i64)
    requires
        m.dom().finite(),
        a != b,
        is_owner(m, project, a),
        is_owner(m, project, b),
    ensures
        owners(m, project).len() >= 2,
{
    let set = owners(m, project);
    lemma_owners_finite(m, project);
    assert(set.contains((project, a)));
    assert(set.contains((project, b)));
    let rest = set.remove((project, a));
    vstd::set::axiom_set_remove_finite(set, (project, a));
    vstd::set::axiom_set_remove_len(set, (project, a));
    assert(rest.contains((project, b)));
    if rest.len() == 0 {
        rest.lemma_len0_is_empty();
        assert(false);
    }
}

/// A permitted change that takes an owner's role away leaves the other owners
/// and only them.
proof fn lemma_owners_after_demotion(m: Map<(i64, i64), Seq<char>>, input: ChangeMember)
    requires
        m.dom().finite(),
        is_owner(m, input.project_id, input.user_id),
        input.role != Some(MemberRole::Owner),
    ensures
        owners(perform_write(m, input, write_for(input)), input.project_id) == owners(
            m,
            input.project_id,
        ).remove((input.project_id, input.user_id)),
        owners(perform_write(m, input, write_for(input)), input.project_id).len() == owners(
            m,
            input.project_id,
        ).len() - 1,
{
    let p = input.project_id;
    let key = (p, input.user_id);
    let after = perform_write(m, input, write_for(input));
    assert(editor_text()[0] != owner_text()[0]);
    assert(viewer_text()[0] != owner_text()[0]);
    assert(owners(after, p) =~= owners(m, p).remove(key));
    lemma_owners_finite(m, p);
    vstd::set::axiom_set_remove_len(owners(m, p), key);
}

/// Of two owners who each give up the owner role of a project that has
/// exactly these two owners, the change serialized first succeeds and the
/// second is refused as the last owner, so one owner remains.
pub proof fn law_one_of_two_departing_owners_remains(
    m: Map<(i64, i64), Seq<char>>,
    first: ChangeMember,
    second: ChangeMember,
)
    requires
        m.dom().finite(),
        first.project_id == second.project_id,
        first.user_id == first.actor_id,
        second.user_id == second.actor_id,
        first.actor_id != second.actor_id,
        is_owner(m, first.project_id, first.actor_id),
        is_owner(m, first.project_id, second.actor_id),
        owners(m, first.project_id).len() == 2,
        first.role != Some(MemberRole::Owner),
        second.role != Some(MemberRole::Owner),
    ensures
        membership_change(m, first).1 == MemberOutcome::Changed,
        membership_change(membership_change(m, first).0, second) == (
            membership_change(m, first).0,
            MemberOutcome::LastOwner,
        ),
        owners(membership_change(m, first).0, first.project_id).len() == 1,
{
    let p = first.project_id;
    lemma_owners_after_demotion(m, first);
    let after = membership_change(m, first).0;
    assert(after == perform_write(m, first, write_for(first)));
    assert(is_owner(after, p, second.actor_id));
}

/// Once an owner has taken another owner's role away, the former owner's own
/// changes in that project are refused as forbidden: authority is read from
/// the memberships that each change holds locked.
pub proof fn law_demoted_owner_loses_authority(
    m: Map<(i64, i64), Seq<char>>,
    first: ChangeMember,
    second: ChangeMember,
)
    requires
        m.dom().finite(),
        first.user_id != first.actor_id,
        is_owner(m, first.project_id, first.actor_id),
        is_owner(m, first.project_id, first.user_id),
        first.role != Some(MemberRole::Owner),
        second.project_id == first.project_id,
        second.actor_id == first.user_id,
    ensures
        membership_change(m, first).1 == MemberOutcome::Changed,
        membership_change(membership_change(m, first).0, second) == (
            membership_change(m, first).0,
            MemberOutcome::Forbidden,
        ),
{
    let p = first.project_id;
    lemma_two_owners(m, p, first.actor_id, first.user_id);
    lemma_owners_after_demotion(m, first);
    let after = membership_change(m, first).0;
    assert(after == perform_write(m, first, write_for(first)));
    assert(editor_text()[0] != owner_text()[0]);
    assert(viewer_text()[0] != owner_text()[0]);
    assert(!is_owner(after, p, first.user_id));
}

/// The memberships after `changes`, serialized in order.
pub open spec fn after_changes(m: Map<(i64, i64), Seq<char>>, changes: Seq<ChangeMember>) -> Map<
    (i64, i64),
    Seq<char>,
>
    decreases changes.len(),
{
    if changes.len() == 0 {
        m
    } else {
        membership_change(after_changes(m, changes.drop_last()), changes.last()).0
    }
}

/// However membership changes interleave, once serialized every project that
/// had an owner still has one, whatever each change's outcome.
pub proof fn law_serialized_changes_keep_owners(
    m: Map<(i64, i64), Seq<char>>,
    changes: Seq<ChangeMember>,
    project: i64,
)
    requires
        m.dom().finite(),
        has_owner(m, project),
    ensures
        has_owner(after_changes(m, changes), project),
        after_changes(m, changes).dom().finite(),
    decreases changes.len(),
{
    if changes.len() > 0 {
        let rest = changes.drop_last();
        let c = changes.last();
        law_serialized_changes_keep_owners(m, rest, project);
        let prev = after_changes(m, rest);
        let next = membership_change(prev, c).0;
        assert(next.dom().finite()) by {
            let key = (c.project_id, c.user_id);
            assert(next.dom() =~= prev.dom() || next.dom() =~= prev.dom().insert(key)
                || next.dom() =~= prev.dom().remove(key));
        }
        if c.project_id == project {
            law_project_keeps_an_owner(prev, c);
        } else {
            let u = choose|u: i64| is_owner(prev, project, u);
            law_refusals_do_not_write(prev, c);
            assert(next.dom().contains((project, u)));
            assert(is_owner(next, project, u));
        }
    }
}

/// Only an owner of the project changes its memberships; anyone else is
/// refused as `Forbidden` and nothing changes.
pub proof fn law_only_owners_change_members(m: Map<(i64, i64), Seq<char>>, input: ChangeMember)
    requires
        !is_owner(m, input.project_id, input.actor_id),
    ensures
        membership_change(m, input) == (m, MemberOutcome::Forbidden),
{
}

} // verus!
