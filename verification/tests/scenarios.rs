//! The invitation and membership transactions, driven step by step against
//! in-memory tables that answer each statement as SQLite would.
use std::collections::{BTreeMap, BTreeSet};

use iris::crypto::token_hash;
use iris::invitations::{
    AcceptAction, AcceptInvitation, InvitationRow, IssueAction, IssueCheck, IssueInvitation,
    IssueOutcome, Outcome, accept_added, accept_claimed, accept_found, accept_start,
    issue_checked, issue_inserted, issue_start,
};
use iris::members::{
    ChangeMember, MemberAction, MemberOutcome as O, MemberRole as R, member_owner_checked,
    member_owners_counted, member_role_read, member_start, member_written,
};

#[derive(Clone)]
struct Invitation {
    project_id: i64,
    recipient_id: i64,
    role: String,
    expires_at: i64,
    accepted_at: Option<i64>,
    accepted_by: Option<i64>,
}

#[derive(Clone, Default)]
struct Tables {
    users: BTreeSet<i64>,
    memberships: BTreeMap<(i64, i64), String>,
    invitations: BTreeMap<Vec<u8>, Invitation>,
}

impl Tables {
    fn invite(&mut self, token: &str, project_id: i64, recipient_id: i64, expires_at: i64) {
        self.users.insert(recipient_id);
        self.invitations.insert(
            token_hash(token),
            Invitation {
                project_id,
                recipient_id,
                role: "editor".into(),
                expires_at,
                accepted_at: None,
                accepted_by: None,
            },
        );
    }

    fn member(&mut self, project_id: i64, user_id: i64, role: &str) {
        self.users.insert(user_id);
        self.memberships.insert((project_id, user_id), role.into());
    }

    fn accepted_count(&self) -> usize {
        self.invitations.values().filter(|i| i.accepted_at.is_some()).count()
    }

    /// One acceptance transaction; a failed body leaves the tables unchanged.
    fn accept(&mut self, token: &str, user_id: i64, now: i64) -> Result<Outcome, &'static str> {
        let before = self.clone();
        let input = AcceptInvitation { token, user_id, now };
        let mut row: Option<InvitationRow> = None;
        let mut action = accept_start(&input);
        loop {
            action = match action {
                AcceptAction::Find { token_hash, recipient_id } => {
                    row = self
                        .invitations
                        .get(&token_hash)
                        .filter(|i| i.recipient_id == recipient_id)
                        .map(|i| InvitationRow {
                            project_id: i.project_id,
                            role: i.role.clone(),
                            expires_at: i.expires_at,
                            accepted_at: i.accepted_at,
                        });
                    accept_found(&input, &row)
                }
                AcceptAction::Claim { token_hash, recipient_id, now } => {
                    let claimed = match self.invitations.get_mut(&token_hash) {
                        Some(i)
                            if i.recipient_id == recipient_id
                                && i.accepted_at.is_none()
                                && i.expires_at > now =>
                        {
                            i.accepted_at = Some(now);
                            i.accepted_by = Some(recipient_id);
                            true
                        }
                        _ => false,
                    };
                    accept_claimed(&input, row.as_ref().unwrap(), claimed)
                }
                AcceptAction::AddMembership { project_id, user_id, role } => {
                    self.memberships.entry((project_id, user_id)).or_insert(role);
                    accept_added(row.as_ref().unwrap())
                }
                AcceptAction::Finish(outcome) => return Ok(outcome),
                AcceptAction::ClaimLost => {
                    *self = before;
                    return Err("invitation claim lost under write lock");
                }
            };
        }
    }

    /// One issuance transaction.
    fn issue(&mut self, input: IssueInvitation) -> Result<IssueOutcome, &'static str> {
        let mut action = issue_start(&input);
        loop {
            action = match action {
                IssueAction::Check(check) => {
                    let answer = match check {
                        IssueCheck::ActorIsOwner => self
                            .memberships
                            .get(&(input.project_id, input.actor_id))
                            .is_some_and(|r| r == "owner"),
                        IssueCheck::RecipientExists => self.users.contains(&input.recipient_id),
                        IssueCheck::RecipientIsMember => self
                            .memberships
                            .contains_key(&(input.project_id, input.recipient_id)),
                        IssueCheck::InvitationPending => self.invitations.values().any(|i| {
                            i.project_id == input.project_id
                                && i.recipient_id == input.recipient_id
                                && i.accepted_at.is_none()
                                && i.expires_at > input.now
                        }),
                    };
                    issue_checked(&input, check, answer)
                }
                IssueAction::Insert(new) => {
                    self.invitations.insert(
                        new.token_hash.clone(),
                        Invitation {
                            project_id: new.project_id,
                            recipient_id: new.recipient_id,
                            role: new.role.clone(),
                            expires_at: new.expires_at,
                            accepted_at: None,
                            accepted_by: None,
                        },
                    );
                    issue_inserted(new)
                }
                IssueAction::Finish(outcome) => return Ok(outcome),
                IssueAction::Fail(_) => return Err("issuance failed"),
            };
        }
    }

    /// One membership change transaction.
    fn change(&mut self, input: ChangeMember) -> O {
        let key = (input.project_id, input.user_id);
        let mut action = member_start(&input);
        loop {
            action = match action {
                MemberAction::CheckActorIsOwner => member_owner_checked(
                    &input,
                    self.memberships
                        .get(&(input.project_id, input.actor_id))
                        .is_some_and(|r| r == "owner"),
                ),
                MemberAction::ReadRole => member_role_read(&input, &self.memberships.get(&key).cloned()),
                MemberAction::CountOwners => {
                    let owners = self
                        .memberships
                        .iter()
                        .filter(|((p, _), r)| *p == input.project_id && *r == "owner")
                        .count() as i64;
                    member_owners_counted(&input, owners)
                }
                MemberAction::SetRole(role) => {
                    self.memberships.insert(key, role.as_str().to_string());
                    member_written(&input)
                }
                MemberAction::Remove => {
                    self.memberships.remove(&key);
                    member_written(&input)
                }
                MemberAction::Finish(outcome) => return outcome,
            };
        }
    }
}

#[test]
fn accepts_and_persists_after_reopen() {
    let mut db = Tables::default();
    db.users.insert(11);
    db.invite("secret-a", 7, 11, 100);
    assert_eq!(db.accept("secret-a", 11, 99).unwrap(), Outcome::Accepted { project_id: 7 });
    assert_eq!(db.memberships.get(&(7, 11)).map(String::as_str), Some("editor"));
    let consumed = db.invitations.values().filter(|i| i.accepted_at == Some(99) && i.accepted_by == Some(11)).count();
    assert_eq!(consumed, 1);
    assert_eq!(db.accept("secret-a", 11, 101).unwrap(), Outcome::AlreadyAccepted);
    assert_eq!(db.memberships.len(), 1);
}

#[test]
fn recipient_and_token_are_both_required() {
    let mut db = Tables::default();
    db.invite("secret-a", 7, 11, 100);
    db.invite("secret-b", 19, 29, 100);
    assert_eq!(db.accept("secret-a", 29, 90).unwrap(), Outcome::NotFound);
    assert_eq!(db.accept("missing", 11, 90).unwrap(), Outcome::NotFound);
    assert_eq!(db.memberships.len(), 0);
    assert_eq!(db.accepted_count(), 0);
    assert_eq!(db.accept("secret-b", 29, 90).unwrap(), Outcome::Accepted { project_id: 19 });
    assert!(db.memberships.contains_key(&(19, 29)));
    assert!(!db.memberships.keys().any(|(p, _)| *p == 7));
    assert_eq!(db.accept("secret-b", 11, 90).unwrap(), Outcome::NotFound);
}

#[test]
fn expiration_boundary() {
    for (now, expected) in [
        (99, Outcome::Accepted { project_id: 7 }),
        (100, Outcome::Expired),
        (101, Outcome::Expired),
    ] {
        let mut db = Tables::default();
        db.invite("secret-a", 7, 11, 100);
        assert_eq!(db.accept("secret-a", 11, now).unwrap(), expected);
        let count = if now == 99 { 1 } else { 0 };
        assert_eq!(db.memberships.len(), count);
        assert_eq!(db.accepted_count(), count);
    }
}

#[test]
fn existing_role_is_preserved() {
    let mut db = Tables::default();
    db.member(7, 11, "viewer");
    db.invite("secret-a", 7, 11, 100);
    assert_eq!(db.accept("secret-a", 11, 90).unwrap(), Outcome::Accepted { project_id: 7 });
    assert_eq!(db.memberships.len(), 1);
    assert_eq!(db.memberships.get(&(7, 11)).map(String::as_str), Some("viewer"));
    let consumed = db.invitations.values().filter(|i| i.accepted_at == Some(90) && i.accepted_by == Some(11)).count();
    assert_eq!(consumed, 1);
}

#[test]
fn accepted_invitation_stays_accepted_after_expiry() {
    let mut db = Tables::default();
    db.invite("secret-a", 7, 11, 100);
    assert_eq!(db.accept("secret-a", 11, 50).unwrap(), Outcome::Accepted { project_id: 7 });
    assert_eq!(db.accept("secret-a", 11, 500).unwrap(), Outcome::AlreadyAccepted);
    assert_eq!(db.accept("secret-a", 29, 500).unwrap(), Outcome::NotFound);
}

fn issue_input(now: i64) -> IssueInvitation {
    IssueInvitation { project_id: 41, recipient_id: 29, actor_id: 11, now }
}

fn issuance_fixture() -> Tables {
    let mut db = Tables::default();
    db.users.insert(29);
    db.member(41, 11, "owner");
    db
}

#[test]
fn expiration_reissue_hash_storage_and_revocation() {
    let mut db = issuance_fixture();
    let IssueOutcome::Issued { token, expires_at } = db.issue(issue_input(100)).unwrap() else {
        panic!("not issued")
    };
    assert_eq!(expires_at, 3700);
    assert_eq!(token.len(), 64);
    assert!(token.bytes().all(|b| b.is_ascii_hexdigit()));
    let stored: Vec<&Vec<u8>> = db.invitations.keys().collect();
    assert_eq!(stored.len(), 1);
    assert_eq!(stored[0].len(), 32, "Store the SHA-256 digest, not the 64-byte token");
    assert_eq!(stored[0], &token_hash(&token));
    assert_eq!(db.issue(issue_input(3699)).unwrap(), IssueOutcome::InvitationPending);
    let IssueOutcome::Issued { token: second, .. } = db.issue(issue_input(3700)).unwrap() else {
        panic!("expired invitation prevented replacement")
    };
    assert_ne!(token, second);
    assert_eq!(db.accept(&token, 29, 3700).unwrap(), Outcome::Expired);
    assert_eq!(db.memberships.len(), 1);
    // Authorization is checked anew, before recipient/duplicate information.
    for role in ["editor", "viewer"] {
        db.memberships.insert((41, 11), role.into());
        assert_eq!(db.issue(issue_input(7300)).unwrap(), IssueOutcome::Forbidden);
    }
    db.memberships.clear();
    assert_eq!(db.issue(issue_input(7300)).unwrap(), IssueOutcome::Forbidden);
}

#[test]
fn issuance_refusals_come_in_order() {
    let mut db = issuance_fixture();
    let unknown = IssueInvitation { project_id: 41, recipient_id: 999, actor_id: 11, now: 100 };
    assert_eq!(db.issue(unknown).unwrap(), IssueOutcome::RecipientNotFound);
    let myself = IssueInvitation { project_id: 41, recipient_id: 11, actor_id: 11, now: 100 };
    assert_eq!(db.issue(myself).unwrap(), IssueOutcome::AlreadyMember);
    let elsewhere = IssueInvitation { project_id: 43, recipient_id: 999, actor_id: 11, now: 100 };
    assert_eq!(db.issue(elsewhere).unwrap(), IssueOutcome::Forbidden);
    assert!(db.invitations.is_empty());
}

#[test]
fn issuance_refuses_an_expiry_past_the_clock_range() {
    let mut db = issuance_fixture();
    assert_eq!(db.issue(issue_input(i64::MAX - 10)), Err("issuance failed"));
    assert!(db.invitations.is_empty());
}

fn member_input(actor_id: i64, user_id: i64, role: Option<R>) -> ChangeMember {
    ChangeMember { project_id: 41, actor_id, user_id, role }
}

fn members_fixture() -> Tables {
    let mut db = Tables::default();
    db.member(41, 11, "owner");
    db.member(41, 29, "editor");
    db.member(41, 37, "viewer");
    db.member(43, 53, "owner");
    db.member(43, 29, "viewer");
    db.users.insert(71);
    db
}

fn rows(db: &Tables) -> Vec<(i64, i64, String)> {
    db.memberships.iter().map(|((p, u), r)| (*p, *u, r.clone())).collect()
}

#[test]
fn policy_roles_project_scope_and_self_service() {
    let mut db = members_fixture();
    let original = rows(&db);
    for actor in [29, 37, 53, 71] {
        for user in [11, 999] {
            for role in [None, Some(R::Owner)] {
                assert_eq!(db.change(member_input(actor, user, role)), O::Forbidden);
            }
        }
    }
    for role in [None, Some(R::Viewer), Some(R::Editor)] {
        assert_eq!(db.change(member_input(11, 11, role)), O::LastOwner);
    }
    assert_eq!(db.change(member_input(11, 53, None)), O::MemberNotFound);
    assert_eq!(rows(&db), original, "rejections must not mutate any membership");
    assert_eq!(db.change(member_input(11, 11, Some(R::Owner))), O::Changed);
    for (role, expected) in [(R::Viewer, "viewer"), (R::Editor, "editor"), (R::Owner, "owner")] {
        assert_eq!(db.change(member_input(11, 29, Some(role))), O::Changed);
        let actual = rows(&db);
        assert_eq!(actual[1], (41, 29, expected.into()));
        assert_eq!(actual[3], (43, 29, "viewer".into()));
    }
    assert_eq!(db.change(member_input(11, 11, Some(R::Viewer))), O::Changed);
    assert_eq!(db.change(member_input(11, 37, None)), O::Forbidden);
    assert_eq!(db.change(member_input(29, 11, Some(R::Owner))), O::Changed);
    assert_eq!(db.change(member_input(29, 29, None)), O::Changed);
    assert_eq!(db.change(member_input(11, 29, None)), O::MemberNotFound);
    assert_eq!(db.change(member_input(11, 37, None)), O::Changed);
    assert_eq!(
        rows(&db),
        vec![(41, 11, "owner".into()), (43, 29, "viewer".into()), (43, 53, "owner".into())]
    );
}

#[test]
fn member_role_names_match_the_schema() {
    assert_eq!(R::Owner.as_str(), "owner");
    assert_eq!(R::Editor.as_str(), "editor");
    assert_eq!(R::Viewer.as_str(), "viewer");
}

#[test]
fn revoking_the_issuer_keeps_issued_invitations() {
    let mut db = issuance_fixture();
    let IssueOutcome::Issued { token, .. } = db.issue(issue_input(100)).unwrap() else {
        panic!("not issued")
    };
    db.memberships.insert((41, 11), "viewer".into());
    assert_eq!(db.issue(issue_input(200)).unwrap(), IssueOutcome::Forbidden);
    assert_eq!(db.accept(&token, 29, 200).unwrap(), Outcome::Accepted { project_id: 41 });
    assert_eq!(db.memberships.get(&(41, 29)).map(String::as_str), Some("editor"));
}

#[test]
fn serialized_last_owner_and_authority() {
    for (a, b) in [(None, None), (Some(R::Editor), Some(R::Viewer)), (None, Some(R::Viewer))] {
        let mut db = Tables::default();
        db.member(41, 11, "owner");
        db.member(41, 29, "owner");
        assert_eq!(db.change(member_input(11, 11, a)), O::Changed);
        assert_eq!(db.change(member_input(29, 29, b)), O::LastOwner);
        let owners = db.memberships.iter().filter(|((p, _), r)| *p == 41 && r.as_str() == "owner").count();
        assert_eq!(owners, 1);
    }
    let mut db = Tables::default();
    db.member(41, 11, "owner");
    db.member(41, 29, "owner");
    assert_eq!(db.change(member_input(11, 29, Some(R::Editor))), O::Changed);
    assert_eq!(db.change(member_input(29, 11, None)), O::Forbidden);
    assert_eq!(db.memberships.get(&(41, 11)).map(String::as_str), Some("owner"));
}
