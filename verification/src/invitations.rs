//! Accepting and issuing invitations. Each is one `BEGIN IMMEDIATE`
//! transaction whose statements the caller runs; the functions here decide,
//! from each answer, the next statement or the outcome.
use crate::crypto::{credential_digest, random_hex, token_hash};
use crate::tables::{StoredInvitation, Tables, editor_text, is_owner, owner_text};
use crate::text::hex;
use vstd::prelude::*;

verus! {

/// Caller supplies a verified identity and a single timestamp for this attempt.
pub struct AcceptInvitation<'a> {
    pub token: &'a str,
    pub user_id: i64,
    pub now: i64,
}

#[derive(Debug, PartialEq, Eq)]
pub enum Outcome {
    Accepted { project_id: i64 },
    /// Also used for a token belonging to another recipient.
    NotFound,
    Expired,
    AlreadyAccepted,
}

/// The columns that acceptance reads of an invitation.
pub struct InvitationRow {
    pub project_id: i64,
    pub role: String,
    pub expires_at: i64,
    pub accepted_at: Option<i64>,
}

/// The next statement of an acceptance, or how it ends.
pub enum AcceptAction {
    /// `SELECT project_id, role, expires_at, accepted_at FROM invitations
    /// WHERE token_hash = ? AND recipient_id = ?`
    Find { token_hash: Vec<u8>, recipient_id: i64 },
    /// `UPDATE invitations SET accepted_at = ?now, accepted_by = ?recipient
    /// WHERE token_hash = ? AND recipient_id = ? AND accepted_at IS NULL
    /// AND expires_at > ?now RETURNING project_id`
    Claim { token_hash: Vec<u8>, recipient_id: i64, now: i64 },
    /// `INSERT INTO memberships (project_id, user_id, role) VALUES (?, ?, ?)
    /// ON CONFLICT (project_id, user_id) DO NOTHING`
    AddMembership { project_id: i64, user_id: i64, role: String },
    /// Commit, then report the outcome.
    Finish(Outcome),
    /// The claim matched no row although the write lock was held: roll back
    /// and report a failure.
    ClaimLost,
}

/// What the lookup of an invitation decides before any write: `None` when
/// the invitation is still to be claimed.
pub open spec fn lookup_outcome(row: Option<InvitationRow>, now: i64) -> Option<Outcome> {
    match row {
        None => Some(Outcome::NotFound),
        Some(r) => if r.accepted_at is Some {
            Some(Outcome::AlreadyAccepted)
        } else if r.expires_at <= now {
            Some(Outcome::Expired)
        } else {
            None
        },
    }
}

/// The first statement: find the invitation by token digest and recipient.
pub fn accept_start(input: &AcceptInvitation) -> (r: AcceptAction)
    ensures
        r matches AcceptAction::Find { token_hash, recipient_id } && token_hash@ == credential_digest(
            input.token@,
        ) && recipient_id == input.user_id,
{
    AcceptAction::Find { token_hash: token_hash(input.token), recipient_id: input.user_id }
}

/// What follows the lookup: an unknown token or another recipient's token is
/// not found; a consumed invitation stays consumed even after it expires; an
/// unconsumed one expires once `now` reaches `expires_at`; otherwise claim it.
pub open spec fn after_lookup(input: AcceptInvitation<'_>, row: Option<InvitationRow>, r: AcceptAction) -> bool {
    match lookup_outcome(row, input.now) {
        Some(o) => r == AcceptAction::Finish(o),
        None => r matches AcceptAction::Claim { token_hash, recipient_id, now } && token_hash@
            == credential_digest(input.token@) && recipient_id == input.user_id && now == input.now,
    }
}

/// After the lookup (see `after_lookup`).
pub fn accept_found(input: &AcceptInvitation, row: &Option<InvitationRow>) -> (r: AcceptAction)
    ensures
        after_lookup(*input, *row, r),
{
    match row {
        None => AcceptAction::Finish(Outcome::NotFound),
        Some(r) => {
            if r.accepted_at.is_some() {
                AcceptAction::Finish(Outcome::AlreadyAccepted)
            } else if r.expires_at <= input.now {
                AcceptAction::Finish(Outcome::Expired)
            } else {
                AcceptAction::Claim {
                    token_hash: token_hash(input.token),
                    recipient_id: input.user_id,
                    now: input.now,
                }
            }
        },
    }
}

/// What follows the claim: add the recipient's membership with the
/// invitation's role, keeping any membership the recipient already has; a
/// claim that matched nothing is lost.
pub open spec fn after_claim(input: AcceptInvitation<'_>, row: InvitationRow, claimed: bool, r: AcceptAction) -> bool {
    if claimed {
        r == (AcceptAction::AddMembership {
            project_id: row.project_id,
            user_id: input.user_id,
            role: row.role,
        })
    } else {
        r == AcceptAction::ClaimLost
    }
}

/// After the claim (see `after_claim`).
pub fn accept_claimed(input: &AcceptInvitation, row: &InvitationRow, claimed: bool) -> (r: AcceptAction)
    ensures
        after_claim(*input, *row, claimed, r),
{
    if claimed {
        AcceptAction::AddMembership {
            project_id: row.project_id,
            user_id: input.user_id,
            role: row.role.clone(),
        }
    } else {
        AcceptAction::ClaimLost
    }
}

/// What follows the membership write: the invitation is accepted.
pub open spec fn after_membership(row: InvitationRow, r: AcceptAction) -> bool {
    r == AcceptAction::Finish(Outcome::Accepted { project_id: row.project_id })
}

/// After the membership write (see `after_membership`).
pub fn accept_added(row: &InvitationRow) -> (r: AcceptAction)
    ensures
        after_membership(*row, r),
{
    AcceptAction::Finish(Outcome::Accepted { project_id: row.project_id })
}

/// What the lookup statement returns from `tables`.
pub open spec fn find_invitation(tables: Tables, token_hash: Seq<u8>, recipient_id: i64) -> Option<
    InvitationRow,
> {
    if tables.invitations.dom().contains(token_hash)
        && tables.invitations[token_hash].recipient_id == recipient_id {
        let inv = tables.invitations[token_hash];
        Some(
            InvitationRow {
                project_id: inv.project_id,
                role: inv.role,
                expires_at: inv.expires_at,
                accepted_at: inv.accepted_at,
            },
        )
    } else {
        None
    }
}

/// Whether the claim statement matches a row: the invitation exists for this
/// recipient, is unaccepted, and has not expired at `now`.
pub open spec fn claim_matches(tables: Tables, token_hash: Seq<u8>, recipient_id: i64, now: i64) -> bool {
    &&& tables.invitations.dom().contains(token_hash)
    &&& tables.invitations[token_hash].recipient_id == recipient_id
    &&& tables.invitations[token_hash].accepted_at is None
    &&& tables.invitations[token_hash].expires_at > now
}

/// The tables after a matching claim: the invitation is accepted at `now` by
/// its recipient.
pub open spec fn claim_invitation(tables: Tables, token_hash: Seq<u8>, recipient_id: i64, now: i64) -> Tables {
    let inv = tables.invitations[token_hash];
    Tables {
        invitations: tables.invitations.insert(
            token_hash,
            StoredInvitation { accepted_at: Some(now), accepted_by: Some(recipient_id), ..inv },
        ),
        ..tables
    }
}

/// The tables after the membership insert, which does nothing when the
/// membership exists.
pub open spec fn add_membership(tables: Tables, project_id: i64, user_id: i64, role: Seq<char>) -> Tables {
    if tables.memberships.dom().contains((project_id, user_id)) {
        tables
    } else {
        Tables { memberships: tables.memberships.insert((project_id, user_id), role), ..tables }
    }
}

/// The whole acceptance transaction on `tables`: the tables it commits and the
/// outcome it reports.
pub open spec fn acceptance(tables: Tables, token: Seq<char>, user_id: i64, now: i64) -> (Tables, Outcome) {
    let h = credential_digest(token);
    match lookup_outcome(find_invitation(tables, h, user_id), now) {
        Some(o) => (tables, o),
        None => {
            let inv = tables.invitations[h];
            (
                add_membership(claim_invitation(tables, h, user_id, now), inv.project_id, user_id, inv.role@),
                Outcome::Accepted { project_id: inv.project_id },
            )
        },
    }
}

/// The acceptance steps perform `acceptance`: with each statement answered
/// from the tables that the transaction holds locked, the lookup decides as
/// `acceptance` does, the claim always matches, and the claim and the
/// membership insert commit `acceptance`'s tables before its outcome is
/// reported.
pub proof fn law_steps_perform_acceptance(
    tables: Tables,
    input: AcceptInvitation,
    looked_up: AcceptAction,
    claimed: AcceptAction,
    added: AcceptAction,
)
    requires
        after_lookup(
            input,
            find_invitation(tables, credential_digest(input.token@), input.user_id),
            looked_up,
        ),
        looked_up matches AcceptAction::Claim { token_hash, recipient_id, now } ==> after_claim(
            input,
            find_invitation(tables, credential_digest(input.token@), input.user_id)->0,
            claim_matches(tables, token_hash@, recipient_id, now),
            claimed,
        ),
        claimed is AddMembership ==> after_membership(
            find_invitation(tables, credential_digest(input.token@), input.user_id)->0,
            added,
        ),
    ensures
        looked_up is Finish || looked_up is Claim,
        looked_up matches AcceptAction::Finish(o) ==> acceptance(
            tables,
            input.token@,
            input.user_id,
            input.now,
        ) == (tables, o),
        looked_up matches AcceptAction::Claim { token_hash, recipient_id, now } ==> {
            &&& claimed matches AcceptAction::AddMembership { project_id, user_id, role }
            &&& acceptance(tables, input.token@, input.user_id, input.now).0 == add_membership(
                claim_invitation(tables, token_hash@, recipient_id, now),
                project_id,
                user_id,
                role@,
            )
            &&& added == AcceptAction::Finish(
                acceptance(tables, input.token@, input.user_id, input.now).1,
            )
        },
{
}

/// Acceptance reads only the invitation: its outcome does not depend on
/// anyone's membership, so revoking the issuer's owner role does not revoke
/// an invitation already issued.
pub proof fn law_acceptance_ignores_issuer_authority(
    tables: Tables,
    other: Tables,
    token: Seq<char>,
    user_id: i64,
    now: i64,
)
    requires
        other.invitations == tables.invitations,
    ensures
        acceptance(other, token, user_id, now).1 == acceptance(tables, token, user_id, now).1,
{
}

/// An accepted invitation cannot be accepted again: repeating the same
/// request, at any later time, reports `AlreadyAccepted` and changes nothing.
pub proof fn law_acceptance_is_single_use(tables: Tables, token: Seq<char>, user_id: i64, now: i64, later: i64)
    requires
        acceptance(tables, token, user_id, now).1 is Accepted,
    ensures
        acceptance(acceptance(tables, token, user_id, now).0, token, user_id, later)
            == (acceptance(tables, token, user_id, now).0, Outcome::AlreadyAccepted),
{
}

/// Another user's token is indistinguishable from an unknown one: the result
/// is `NotFound` and nothing changes.
pub proof fn law_other_recipient_is_not_found(tables: Tables, token: Seq<char>, user_id: i64, now: i64)
    requires
        !tables.invitations.dom().contains(credential_digest(token))
            || tables.invitations[credential_digest(token)].recipient_id != user_id,
    ensures
        acceptance(tables, token, user_id, now) == (tables, Outcome::NotFound),
{
}

/// An unaccepted invitation expires exactly when `now` reaches `expires_at`;
/// one second earlier it is accepted.
pub proof fn law_expiration_boundary(tables: Tables, token: Seq<char>, user_id: i64, now: i64)
    requires
        find_invitation(tables, credential_digest(token), user_id) matches Some(row) && row.accepted_at
            is None,
    ensures
        acceptance(tables, token, user_id, now).1 is Expired <==> tables.invitations[credential_digest(
            token,
        )].expires_at <= now,
        acceptance(tables, token, user_id, now).1 is Accepted <==> now < tables.invitations[credential_digest(
            token,
        )].expires_at,
{
}

/// Acceptance never changes a membership that exists: a recipient who
/// already belongs to the invitation's project keeps its role, while the
/// invitation is still consumed.
pub proof fn law_existing_membership_is_kept(tables: Tables, token: Seq<char>, user_id: i64, now: i64)
    requires
        tables.invitations.dom().contains(credential_digest(token)),
        tables.memberships.dom().contains(
            (tables.invitations[credential_digest(token)].project_id, user_id),
        ),
    ensures
        acceptance(tables, token, user_id, now).0.memberships == tables.memberships,
        acceptance(tables, token, user_id, now).1 is Accepted ==> acceptance(
            tables,
            token,
            user_id,
            now,
        ).0.invitations[credential_digest(token)].accepted_at == Some(now),
{
}

pub struct IssueInvitation {
    pub project_id: i64,
    pub recipient_id: i64,
    pub actor_id: i64,
    pub now: i64,
}

#[derive(Debug, PartialEq)]
pub enum IssueOutcome {
    Issued { token: String, expires_at: i64 },
    Forbidden,
    RecipientNotFound,
    AlreadyMember,
    InvitationPending,
}

/// A yes/no question that issuing asks the database, in this order.
#[derive(Clone, Copy, Debug, PartialEq, Eq)]
pub enum IssueCheck {
    /// `SELECT EXISTS(SELECT 1 FROM memberships WHERE project_id=? AND
    /// user_id=?actor AND role='owner')`
    ActorIsOwner,
    /// `SELECT EXISTS(SELECT 1 FROM users WHERE id=?recipient)`
    RecipientExists,
    /// `SELECT EXISTS(SELECT 1 FROM memberships WHERE project_id=? AND
    /// user_id=?recipient)`
    RecipientIsMember,
    /// `SELECT EXISTS(SELECT 1 FROM invitations WHERE project_id=? AND
    /// recipient_id=? AND accepted_at IS NULL AND expires_at>?now)`
    InvitationPending,
}

/// A freshly drawn invitation: the credential handed to the issuer, and the
/// row to insert, which stores only the credential's digest.
pub struct NewInvitation {
    pub token: String,
    pub token_hash: Vec<u8>,
    pub project_id: i64,
    pub recipient_id: i64,
    pub role: String,
    pub expires_at: i64,
}

/// Why issuing stopped without an outcome: the transaction is rolled back.
#[derive(Debug, PartialEq, Eq)]
pub enum IssueFailure {
    /// `now + 3600` does not fit an `i64`.
    ExpiryOverflow,
    /// The operating system's random source failed.
    RandomUnavailable,
}

/// The next statement of an issuance, or how it ends.
pub enum IssueAction {
    Check(IssueCheck),
    /// `INSERT INTO invitations (token_hash, project_id, recipient_id, role,
    /// expires_at) VALUES (?, ?, ?, ?, ?)`
    Insert(NewInvitation),
    /// Commit, then report the outcome.
    Finish(IssueOutcome),
    /// Roll back, then report the failure.
    Fail(IssueFailure),
}

/// Invitations are valid for one hour from the action's timestamp.
pub const INVITATION_LIFETIME: i64 = 3600;

/// The answer that lets issuing go on past `check`.
pub open spec fn passes(check: IssueCheck, answer: bool) -> bool {
    match check {
        IssueCheck::ActorIsOwner => answer,
        IssueCheck::RecipientExists => answer,
        IssueCheck::RecipientIsMember => !answer,
        IssueCheck::InvitationPending => !answer,
    }
}

/// The outcome when `check` does not pass.
pub open spec fn refusal(check: IssueCheck) -> IssueOutcome {
    match check {
        IssueCheck::ActorIsOwner => IssueOutcome::Forbidden,
        IssueCheck::RecipientExists => IssueOutcome::RecipientNotFound,
        IssueCheck::RecipientIsMember => IssueOutcome::AlreadyMember,
        IssueCheck::InvitationPending => IssueOutcome::InvitationPending,
    }
}

/// The check that follows `check` when it passes.
pub open spec fn following(check: IssueCheck) -> Option<IssueCheck> {
    match check {
        IssueCheck::ActorIsOwner => Some(IssueCheck::RecipientExists),
        IssueCheck::RecipientExists => Some(IssueCheck::RecipientIsMember),
        IssueCheck::RecipientIsMember => Some(IssueCheck::InvitationPending),
        IssueCheck::InvitationPending => None,
    }
}

/// The row that a drawn `token` becomes for `input`.
pub open spec fn drafted(input: IssueInvitation, token: Seq<char>, new: NewInvitation) -> bool {
    &&& new.token@ == token
    &&& new.token_hash@ == credential_digest(token)
    &&& new.project_id == input.project_id
    &&& new.recipient_id == input.recipient_id
    &&& new.role@ == editor_text()
    &&& new.expires_at == input.now + INVITATION_LIFETIME
}

/// The first question: authorization comes before every other check.
pub fn issue_start(input: &IssueInvitation) -> (r: IssueAction)
    ensures
        r == IssueAction::Check(IssueCheck::ActorIsOwner),
{
    IssueAction::Check(IssueCheck::ActorIsOwner)
}

/// Builds the invitation row for a drawn credential.
pub fn draft_invitation(input: &IssueInvitation, token: String) -> (r: IssueAction)
    ensures
        input.now + INVITATION_LIFETIME > i64::MAX ==> r == IssueAction::Fail(
            IssueFailure::ExpiryOverflow,
        ),
        input.now + INVITATION_LIFETIME <= i64::MAX ==> (r matches IssueAction::Insert(new)
            && drafted(*input, token@, new)),
{
    let expires_at = match input.now.checked_add(INVITATION_LIFETIME) {
        Some(t) => t,
        None => {
            return IssueAction::Fail(IssueFailure::ExpiryOverflow);
        },
    };
    let digest = token_hash(token.as_str());
    proof {
        reveal_strlit("editor");
    }
    let role = String::from_str("editor");
    assert(role@ =~= editor_text());
    IssueAction::Insert(
        NewInvitation {
            token,
            token_hash: digest,
            project_id: input.project_id,
            recipient_id: input.recipient_id,
            role,
            expires_at,
        },
    )
}

/// What follows the answer to `check`: refuse, ask the next question, or,
/// once every check has passed, draw a 32-byte credential and insert its
/// row; drawing fails when the expiry leaves the clock's range or the random
/// source fails.
pub open spec fn after_check(input: IssueInvitation, check: IssueCheck, answer: bool, r: IssueAction) -> bool {
    if !passes(check, answer) {
        r == IssueAction::Finish(refusal(check))
    } else if following(check) is Some {
        r == IssueAction::Check(following(check)->0)
    } else {
        ||| input.now + INVITATION_LIFETIME > i64::MAX && r == IssueAction::Fail(
            IssueFailure::ExpiryOverflow,
        )
        ||| input.now + INVITATION_LIFETIME <= i64::MAX && r == IssueAction::Fail(
            IssueFailure::RandomUnavailable,
        )
        ||| r matches IssueAction::Insert(new) && drafted(input, new.token@, new) && exists|
            bytes: Seq<u8>,
        | bytes.len() == 32 && new.token@ == hex(bytes)
    }
}

/// After the answer to `check` (see `after_check`).
pub fn issue_checked(input: &IssueInvitation, check: IssueCheck, answer: bool) -> (r: IssueAction)
    ensures
        after_check(*input, check, answer, r),
{
    match check {
        IssueCheck::ActorIsOwner => if answer {
            IssueAction::Check(IssueCheck::RecipientExists)
        } else {
            IssueAction::Finish(IssueOutcome::Forbidden)
        },
        IssueCheck::RecipientExists => if answer {
            IssueAction::Check(IssueCheck::RecipientIsMember)
        } else {
            IssueAction::Finish(IssueOutcome::RecipientNotFound)
        },
        IssueCheck::RecipientIsMember => if answer {
            IssueAction::Finish(IssueOutcome::AlreadyMember)
        } else {
            IssueAction::Check(IssueCheck::InvitationPending)
        },
        IssueCheck::InvitationPending => if answer {
            IssueAction::Finish(IssueOutcome::InvitationPending)
        } else if input.now.checked_add(INVITATION_LIFETIME).is_none() {
            IssueAction::Fail(IssueFailure::ExpiryOverflow)
        } else {
            match random_hex(32) {
                Ok(token) => draft_invitation(input, token),
                Err(_) => IssueAction::Fail(IssueFailure::RandomUnavailable),
            }
        },
    }
}

/// After the insert: the credential and its expiry are handed back.
pub fn issue_inserted(new: NewInvitation) -> (r: IssueAction)
    ensures
        r == IssueAction::Finish(IssueOutcome::Issued { token: new.token, expires_at: new.expires_at }),
{
    IssueAction::Finish(IssueOutcome::Issued { token: new.token, expires_at: new.expires_at })
}

/// The answer that `check` gets from `tables`.
pub open spec fn check_answer(tables: Tables, input: IssueInvitation, check: IssueCheck) -> bool {
    match check {
        IssueCheck::ActorIsOwner => is_owner(tables.memberships, input.project_id, input.actor_id),
        IssueCheck::RecipientExists => tables.users.contains(input.recipient_id),
        IssueCheck::RecipientIsMember => tables.memberships.dom().contains(
            (input.project_id, input.recipient_id),
        ),
        IssueCheck::InvitationPending => exists|h: Seq<u8>|
            #![trigger tables.invitations.dom().contains(h)]
            tables.invitations.dom().contains(h) && tables.invitations[h].project_id
                == input.project_id && tables.invitations[h].recipient_id == input.recipient_id
                && tables.invitations[h].accepted_at is None && tables.invitations[h].expires_at
                > input.now,
    }
}

/// The first check, in order, that refuses `input` on `tables`.
pub open spec fn first_refusal(tables: Tables, input: IssueInvitation) -> Option<IssueCheck> {
    if !passes(IssueCheck::ActorIsOwner, check_answer(tables, input, IssueCheck::ActorIsOwner)) {
        Some(IssueCheck::ActorIsOwner)
    } else if !passes(
        IssueCheck::RecipientExists,
        check_answer(tables, input, IssueCheck::RecipientExists),
    ) {
        Some(IssueCheck::RecipientExists)
    } else if !passes(
        IssueCheck::RecipientIsMember,
        check_answer(tables, input, IssueCheck::RecipientIsMember),
    ) {
        Some(IssueCheck::RecipientIsMember)
    } else if !passes(
        IssueCheck::InvitationPending,
        check_answer(tables, input, IssueCheck::InvitationPending),
    ) {
        Some(IssueCheck::InvitationPending)
    } else {
        None
    }
}

/// The tables after the insert of `new`, an unaccepted invitation.
pub open spec fn insert_invitation(tables: Tables, new: NewInvitation) -> Tables {
    let row = StoredInvitation {
        project_id: new.project_id,
        recipient_id: new.recipient_id,
        role: new.role,
        expires_at: new.expires_at,
        accepted_at: None,
        accepted_by: None,
    };
    Tables { invitations: tables.invitations.insert(new.token_hash@, row), ..tables }
}

/// The whole issuance on `tables` when the drawn invitation is `new`: the
/// tables it commits and the outcome it reports.
pub open spec fn issuance(tables: Tables, input: IssueInvitation, new: NewInvitation) -> (Tables, IssueOutcome) {
    match first_refusal(tables, input) {
        Some(check) => (tables, refusal(check)),
        None => (
            insert_invitation(tables, new),
            IssueOutcome::Issued { token: new.token, expires_at: new.expires_at },
        ),
    }
}

/// The issuing steps perform `issuance`: with each check answered from the
/// tables that the transaction holds locked, asking the checks in order
/// stops at the first one that refuses, with its refusal; when none refuses,
/// the steps either fail to draw a credential or insert the drawn row, which
/// commits `issuance`'s tables and reports its outcome.
pub proof fn law_steps_perform_issuance(
    tables: Tables,
    input: IssueInvitation,
    owner: IssueAction,
    exists: IssueAction,
    member: IssueAction,
    pending: IssueAction,
)
    requires
        after_check(
            input,
            IssueCheck::ActorIsOwner,
            check_answer(tables, input, IssueCheck::ActorIsOwner),
            owner,
        ),
        owner is Check ==> after_check(
            input,
            IssueCheck::RecipientExists,
            check_answer(tables, input, IssueCheck::RecipientExists),
            exists,
        ),
        owner is Check && exists is Check ==> after_check(
            input,
            IssueCheck::RecipientIsMember,
            check_answer(tables, input, IssueCheck::RecipientIsMember),
            member,
        ),
        owner is Check && exists is Check && member is Check ==> after_check(
            input,
            IssueCheck::InvitationPending,
            check_answer(tables, input, IssueCheck::InvitationPending),
            pending,
        ),
    ensures
        ({
            let last = if !(owner is Check) {
                owner
            } else if !(exists is Check) {
                exists
            } else if !(member is Check) {
                member
            } else {
                pending
            };
            &&& first_refusal(tables, input) matches Some(c) ==> last == IssueAction::Finish(
                refusal(c),
            )
            &&& first_refusal(tables, input) is None ==> (last is Fail || last is Insert)
            &&& last matches IssueAction::Insert(new) ==> drafted(input, new.token@, new)
                && issuance(tables, input, new) == (
                insert_invitation(tables, new),
                IssueOutcome::Issued { token: new.token, expires_at: new.expires_at },
            )
        }),
{
}

/// Only an owner of the project issues invitations; everyone else is refused
/// before any other check, and issuing never changes a membership.
pub proof fn law_only_owners_issue(tables: Tables, input: IssueInvitation, new: NewInvitation)
    ensures
        !is_owner(tables.memberships, input.project_id, input.actor_id) ==> issuance(
            tables,
            input,
            new,
        ) == (tables, IssueOutcome::Forbidden),
        issuance(tables, input, new).0.memberships == tables.memberships,
        issuance(tables, input, new).0.users == tables.users,
{
}

/// An issued invitation is pending until it expires: issuing again for the
/// same project and recipient before `expires_at` is refused as
/// `InvitationPending` (expiry equality permits replacement).
pub proof fn law_issued_invitation_is_pending(
    tables: Tables,
    input: IssueInvitation,
    new: NewInvitation,
    again: IssueInvitation,
    new2: NewInvitation,
)
    requires
        drafted(input, new.token@, new),
        issuance(tables, input, new).1 is Issued,
        again.project_id == input.project_id,
        again.recipient_id == input.recipient_id,
        again.actor_id == input.actor_id,
        again.now < input.now + INVITATION_LIFETIME,
    ensures
        issuance(issuance(tables, input, new).0, again, new2).1 == IssueOutcome::InvitationPending,
{
    let after = issuance(tables, input, new).0;
    let h = new.token_hash@;
    assert(after.invitations.dom().contains(h));
    assert(check_answer(after, again, IssueCheck::InvitationPending));
}

/// Issuing only adds its own row: no other invitation changes, so an old
/// token answers acceptance exactly as before (an expired one stays expired;
/// the new token does not revive it).
pub proof fn law_issuing_keeps_other_invitations(
    tables: Tables,
    input: IssueInvitation,
    new: NewInvitation,
    token: Seq<char>,
    user_id: i64,
    now: i64,
)
    requires
        credential_digest(token) != new.token_hash@,
    ensures
        forall|h: Seq<u8>|
            h != new.token_hash@ ==> (#[trigger] issuance(tables, input, new).0.invitations.dom().contains(
                h,
            ) == tables.invitations.dom().contains(h) && (tables.invitations.dom().contains(h)
                ==> issuance(tables, input, new).0.invitations[h] == tables.invitations[h])),
        acceptance(issuance(tables, input, new).0, token, user_id, now).1 == acceptance(
            tables,
            token,
            user_id,
            now,
        ).1,
{
    let after = issuance(tables, input, new).0;
    let h = credential_digest(token);
    assert(after.invitations.dom().contains(h) == tables.invitations.dom().contains(h));
    if tables.invitations.dom().contains(h) {
        assert(after.invitations[h] == tables.invitations[h]);
    }
}

/// Inviting oneself, or anyone already in the project, is refused as
/// `AlreadyMember` once the actor is an owner and the recipient exists.
pub proof fn law_members_cannot_be_invited(tables: Tables, input: IssueInvitation, new: NewInvitation)
    requires
        is_owner(tables.memberships, input.project_id, input.actor_id),
        tables.users.contains(input.recipient_id),
        input.recipient_id == input.actor_id || tables.memberships.dom().contains(
            (input.project_id, input.recipient_id),
        ),
    ensures
        issuance(tables, input, new) == (tables, IssueOutcome::AlreadyMember),
{
}

/// An invitation stops blocking a new one when it expires: issuing again for
/// the same project and recipient at exactly `expires_at` succeeds.
pub proof fn law_expired_invitation_permits_replacement(
    tables: Tables,
    input: IssueInvitation,
    new: NewInvitation,
    again: IssueInvitation,
    new2: NewInvitation,
)
    requires
        drafted(input, new.token@, new),
        issuance(tables, input, new).1 is Issued,
        again.project_id == input.project_id,
        again.recipient_id == input.recipient_id,
        again.actor_id == input.actor_id,
        again.now >= input.now + INVITATION_LIFETIME,
    ensures
        issuance(issuance(tables, input, new).0, again, new2).1 is Issued,
{
    let after = issuance(tables, input, new).0;
    assert(!check_answer(tables, input, IssueCheck::InvitationPending));
    if check_answer(after, again, IssueCheck::InvitationPending) {
        let h = choose|h: Seq<u8>|
            #![trigger after.invitations.dom().contains(h)]
            after.invitations.dom().contains(h) && after.invitations[h].project_id == again.project_id
                && after.invitations[h].recipient_id == again.recipient_id
                && after.invitations[h].accepted_at is None && after.invitations[h].expires_at
                > again.now;
        if h != new.token_hash@ {
            assert(tables.invitations.dom().contains(h));
            assert(tables.invitations[h] == after.invitations[h]);
        }
    }
}

} // verus!
