//! The invitation mail outbox: a leased job per invitation, retried with
//! capped exponential backoff, and cleared of its credential once finished.
use vstd::prelude::*;

verus! {

pub const MAX_ATTEMPTS: i64 = 5;

pub const LEASE_SECONDS: i64 = 30;

// Deliberately no Debug: this value contains a credential.
pub struct Delivery {
    pub invitation_id: i64,
    pub recipient: String,
    pub token: String,
    pub attempt: i64,
    pub project_id: i64,
}

pub enum Completion {
    Sent,
    Retry,
    PermanentFailure,
}

/// Two to the power `k`.
pub open spec fn pow2(k: nat) -> nat
    decreases k,
{
    if k == 0 {
        1
    } else {
        2 * pow2((k - 1) as nat)
    }
}

/// Seconds before the next attempt after attempt number `attempt`: 5, 10,
/// 20, 40, then 60 from then on.
pub open spec fn backoff(attempt: int) -> int {
    let d = 5 * pow2((attempt - 1) as nat);
    if d < 60 {
        d as int
    } else {
        60
    }
}

/// How a finished attempt is recorded.
pub struct CompletionPlan {
    /// `pending`, `sent` or `dead`.
    pub state: &'static str,
    pub reason: &'static str,
    pub next_attempt_at: i64,
    /// Only a job that stays pending keeps its recipient and token.
    pub keeps_payload: bool,
}

pub open spec fn planned_state(attempt: i64, outcome: Completion) -> (&'static str, &'static str) {
    match outcome {
        Completion::Sent => ("sent", "smtp_accepted"),
        Completion::PermanentFailure => ("dead", "permanent_failure"),
        Completion::Retry => if attempt >= MAX_ATTEMPTS {
            ("dead", "attempts_exhausted")
        } else {
            ("pending", "transient_failure")
        },
    }
}

proof fn lemma_pow2_grows(a: nat, b: nat)
    requires
        a <= b,
    ensures
        1 <= pow2(a) <= pow2(b),
    decreases b,
{
    if b > a {
        lemma_pow2_grows(a, (b - 1) as nat);
    } else if a > 0 {
        lemma_pow2_grows((a - 1) as nat, (a - 1) as nat);
    }
}

fn backoff_seconds(attempt: i64) -> (r: i64)
    requires
        1 <= attempt,
    ensures
        r == backoff(attempt as int),
{
    let mut d: i64 = 5;
    let mut k: i64 = 1;
    while k < attempt && d < 60
        invariant
            1 <= k <= attempt,
            d == 5 * pow2((k - 1) as nat),
            d < 120,
        decreases attempt - k,
    {
        d = d * 2;
        k = k + 1;
    }
    if d < 60 {
        assert(k == attempt);
        d
    } else {
        proof {
            lemma_pow2_grows((k - 1) as nat, (attempt - 1) as nat);
        }
        60
    }
}

/// The record of a finished attempt. A stale lease holder's record is
/// refused by the caller's conditional update, not here.
pub fn completion_plan(delivery: &Delivery, outcome: Completion, now: i64) -> (r: CompletionPlan)
    requires
        1 <= delivery.attempt <= 61,
        now + backoff(delivery.attempt as int) <= i64::MAX,
    ensures
        (r.state, r.reason) == planned_state(delivery.attempt, outcome),
        outcome is Sent ==> r.state == "sent" && r.reason == "smtp_accepted",
        outcome is PermanentFailure ==> r.state == "dead" && r.reason == "permanent_failure",
        outcome is Retry && delivery.attempt >= MAX_ATTEMPTS ==> r.state == "dead" && r.reason
            == "attempts_exhausted",
        outcome is Retry && delivery.attempt < MAX_ATTEMPTS ==> r.state == "pending" && r.reason
            == "transient_failure",
        r.next_attempt_at == now + backoff(delivery.attempt as int),
        r.keeps_payload == (r.state == "pending"),
{
    let (state, reason, pending) = match outcome {
        Completion::Sent => ("sent", "smtp_accepted", false),
        Completion::PermanentFailure => ("dead", "permanent_failure", false),
        Completion::Retry => if delivery.attempt >= MAX_ATTEMPTS {
            ("dead", "attempts_exhausted", false)
        } else {
            ("pending", "transient_failure", true)
        },
    };
    proof {
        reveal_strlit("pending");
        reveal_strlit("sent");
        reveal_strlit("dead");
    }
    let delay = backoff_seconds(delivery.attempt);
    CompletionPlan { state, reason, next_attempt_at: now + delay, keeps_payload: pending }
}

/// The end of a lease taken at `now`.
pub fn lease_until(now: i64) -> (r: i64)
    requires
        now + LEASE_SECONDS <= i64::MAX,
    ensures
        r == now + LEASE_SECONDS,
{
    now + LEASE_SECONDS
}

/// A row of `invitation_outbox`, keyed elsewhere by its invitation id.
pub struct OutboxRow {
    /// `pending`, `sent` or `dead`.
    pub state: Seq<char>,
    pub recipient: Option<Seq<char>>,
    pub token: Option<Seq<char>>,
    pub attempts: i64,
    pub next_attempt_at: i64,
    pub lease_until: Option<i64>,
    pub reason: Option<Seq<char>>,
}

/// What the outbox reads of an invitation.
pub struct OutboxInvitation {
    pub project_id: i64,
    pub expires_at: i64,
    pub accepted: bool,
}

/// The `invitation_outbox` table and the invitations it refers to, both
/// keyed by invitation id.
pub struct Outbox {
    pub jobs: Map<i64, OutboxRow>,
    pub invitations: Map<i64, OutboxInvitation>,
}

pub open spec fn pending_text() -> Seq<char> {
    seq!['p', 'e', 'n', 'd', 'i', 'n', 'g']
}

pub open spec fn dead_text() -> Seq<char> {
    seq!['d', 'e', 'a', 'd']
}

/// No live lease: the job was never leased, or its lease ended by `now`.
pub open spec fn lease_free(row: OutboxRow, now: i64) -> bool {
    match row.lease_until {
        Some(until) => until <= now,
        None => true,
    }
}

/// The invitation of job `id` can no longer be accepted at `now`.
pub open spec fn invitation_finished(outbox: Outbox, id: i64, now: i64) -> bool {
    outbox.invitations.dom().contains(id) && (outbox.invitations[id].expires_at <= now
        || outbox.invitations[id].accepted)
}

/// The first claim statement ends job `id`: it is pending, not leased, and
/// its attempts are used up or its invitation is expired or accepted.
pub open spec fn swept_away(outbox: Outbox, id: i64, now: i64) -> bool {
    let row = outbox.jobs[id];
    &&& outbox.jobs.dom().contains(id)
    &&& row.state == pending_text()
    &&& lease_free(row, now)
    &&& (row.attempts >= MAX_ATTEMPTS || invitation_finished(outbox, id, now))
}

/// A job ended by the sweep: dead, with its credential and lease cleared.
pub open spec fn dead_job(row: OutboxRow) -> OutboxRow {
    OutboxRow {
        state: dead_text(),
        recipient: None,
        token: None,
        lease_until: None,
        reason: Some("expired_accepted_or_exhausted"@),
        ..row
    }
}

/// The outbox after the sweep statement.
pub open spec fn swept(outbox: Outbox, now: i64) -> Outbox {
    Outbox {
        jobs: Map::new(
            |id: i64| outbox.jobs.dom().contains(id),
            |id: i64|
                if swept_away(outbox, id, now) {
                    dead_job(outbox.jobs[id])
                } else {
                    outbox.jobs[id]
                },
        ),
        ..outbox
    }
}

/// Job `id` may be sent at `now`: pending, due, not leased, with attempts
/// left, for an invitation that is neither expired nor accepted.
pub open spec fn eligible(outbox: Outbox, id: i64, now: i64) -> bool {
    let row = outbox.jobs[id];
    &&& outbox.jobs.dom().contains(id)
    &&& row.state == pending_text()
    &&& row.next_attempt_at <= now
    &&& lease_free(row, now)
    &&& row.attempts < MAX_ATTEMPTS
    &&& outbox.invitations.dom().contains(id)
    &&& outbox.invitations[id].expires_at > now
    &&& !outbox.invitations[id].accepted
}

/// Job `a` comes before job `b`: earlier due, then lower invitation id.
pub open spec fn due_before(outbox: Outbox, a: i64, b: i64) -> bool {
    outbox.jobs[a].next_attempt_at < outbox.jobs[b].next_attempt_at || (
    outbox.jobs[a].next_attempt_at == outbox.jobs[b].next_attempt_at && a < b)
}

/// The lease statement picks job `id`: the first eligible job in due order.
pub open spec fn picks(outbox: Outbox, id: i64, now: i64) -> bool {
    eligible(outbox, id, now) && forall|other: i64|
        eligible(outbox, other, now) && other != id ==> #[trigger] due_before(outbox, id, other)
}

/// A job after it is leased at `now`: one more attempt, leased for thirty
/// seconds.
pub open spec fn leased_job(row: OutboxRow, now: i64) -> OutboxRow {
    OutboxRow {
        attempts: (row.attempts + 1) as i64,
        lease_until: Some((now + LEASE_SECONDS) as i64),
        ..row
    }
}

/// The outbox after the lease statement picked job `id`.
pub open spec fn lease(outbox: Outbox, id: i64, now: i64) -> Outbox {
    Outbox { jobs: outbox.jobs.insert(id, leased_job(outbox.jobs[id], now)), ..outbox }
}

/// The job that the lease statement returns.
pub struct LeasedJob {
    pub invitation_id: i64,
    pub recipient: String,
    pub token: String,
    pub attempts: i64,
}

/// The next statement of a claim, or its result.
pub enum ClaimAction {
    /// `UPDATE invitation_outbox SET state='dead', recipient=NULL, token=NULL,
    /// lease_until=NULL, reason='expired_accepted_or_exhausted' WHERE
    /// state='pending' AND (lease_until IS NULL OR lease_until<=?now) AND
    /// (attempts>=?max_attempts OR invitation_id IN (SELECT id FROM
    /// invitations WHERE expires_at<=?now OR accepted_at IS NOT NULL))`
    Sweep { now: i64, max_attempts: i64 },
    /// `UPDATE invitation_outbox SET attempts=attempts+1,
    /// lease_until=?lease_until WHERE invitation_id=(the first eligible job
    /// ORDER BY next_attempt_at, invitation_id LIMIT 1) RETURNING
    /// invitation_id, recipient, token, attempts`, eligible as `eligible`
    /// says.
    Lease { now: i64, lease_until: i64, max_attempts: i64 },
    /// `SELECT project_id FROM invitations WHERE id=?`
    ReadProject(LeasedJob),
    /// Commit, then hand the job (if any) to the sender.
    Finish(Option<Delivery>),
}

/// The first statement of a claim: the sweep.
pub fn claim_start(now: i64) -> (r: ClaimAction)
    ensures
        r == (ClaimAction::Sweep { now, max_attempts: MAX_ATTEMPTS }),
{
    ClaimAction::Sweep { now, max_attempts: MAX_ATTEMPTS }
}

/// After the sweep: lease the first eligible job for thirty seconds.
pub fn claim_swept(now: i64) -> (r: ClaimAction)
    requires
        now + LEASE_SECONDS <= i64::MAX,
    ensures
        r == (ClaimAction::Lease {
            now,
            lease_until: (now + LEASE_SECONDS) as i64,
            max_attempts: MAX_ATTEMPTS,
        }),
{
    ClaimAction::Lease { now, lease_until: lease_until(now), max_attempts: MAX_ATTEMPTS }
}

/// After the lease: read the leased job's project, or finish with nothing
/// to send.
pub fn claim_leased(job: Option<LeasedJob>) -> (r: ClaimAction)
    ensures
        job is None ==> r == ClaimAction::Finish(None),
        job matches Some(j) ==> r == ClaimAction::ReadProject(j),
{
    match job {
        Some(j) => ClaimAction::ReadProject(j),
        None => ClaimAction::Finish(None),
    }
}

/// After reading the project: the job to send, numbered by its attempt.
pub fn claim_read(job: LeasedJob, project_id: i64) -> (r: ClaimAction)
    ensures
        r == ClaimAction::Finish(
            Some(
                Delivery {
                    invitation_id: job.invitation_id,
                    recipient: job.recipient,
                    token: job.token,
                    attempt: job.attempts,
                    project_id,
                },
            ),
        ),
{
    ClaimAction::Finish(
        Some(
            Delivery {
                invitation_id: job.invitation_id,
                recipient: job.recipient,
                token: job.token,
                attempt: job.attempts,
                project_id,
            },
        ),
    )
}

/// The completion statement takes effect: the job is still pending, on the
/// attempt that the delivery made, and its lease is live at `now`.
pub open spec fn acknowledges(row: OutboxRow, attempt: i64, now: i64) -> bool {
    &&& row.state == pending_text()
    &&& row.attempts == attempt
    &&& row.lease_until matches Some(until) && until > now
}

/// A job after the completion statement records `plan`: its state, reason
/// and next attempt, no lease, and its credential only if it stays pending.
pub open spec fn completed_job(row: OutboxRow, plan: CompletionPlan) -> OutboxRow {
    OutboxRow {
        state: plan.state@,
        reason: Some(plan.reason@),
        next_attempt_at: plan.next_attempt_at,
        lease_until: None,
        recipient: if plan.keeps_payload {
            row.recipient
        } else {
            None
        },
        token: if plan.keeps_payload {
            row.token
        } else {
            None
        },
        ..row
    }
}

/// The completion statement on `outbox`: the outbox afterwards, and whether
/// it took effect (`rows_affected() == 1`).
pub open spec fn completion(outbox: Outbox, delivery: Delivery, plan: CompletionPlan, now: i64) -> (Outbox, bool) {
    let id = delivery.invitation_id;
    if outbox.jobs.dom().contains(id) && acknowledges(outbox.jobs[id], delivery.attempt, now) {
        (Outbox { jobs: outbox.jobs.insert(id, completed_job(outbox.jobs[id], plan)), ..outbox }, true)
    } else {
        (outbox, false)
    }
}

/// A claim never hands out a job whose invitation is expired or accepted or
/// whose attempts are used up: after the sweep, the job the lease picks is
/// eligible, pending and free of any lease, and its attempt number after the
/// lease is at most `MAX_ATTEMPTS`; every job the sweep ended is dead and
/// holds no credential.
pub proof fn law_claims_skip_finished_jobs(outbox: Outbox, id: i64, now: i64)
    requires
        now + LEASE_SECONDS <= i64::MAX,
    ensures
        picks(swept(outbox, now), id, now) ==> !invitation_finished(outbox, id, now)
            && outbox.jobs[id].attempts < MAX_ATTEMPTS && lease(swept(outbox, now), id, now).jobs[id].attempts
            <= MAX_ATTEMPTS,
        swept_away(outbox, id, now) ==> swept(outbox, now).jobs[id].state == dead_text()
            && swept(outbox, now).jobs[id].recipient is None && swept(outbox, now).jobs[id].token
            is None,
{
    if picks(swept(outbox, now), id, now) {
        assert(!swept_away(outbox, id, now)) by {
            assert(pending_text() != dead_text()) by {
                assert(pending_text().len() != dead_text().len());
            }
        }
    }
}

/// A leased job is not handed out again while its lease is live, so two
/// workers never send the same attempt.
pub proof fn law_leased_jobs_are_not_claimed_again(outbox: Outbox, id: i64, now: i64, later: i64)
    requires
        outbox.jobs.dom().contains(id),
        now + LEASE_SECONDS <= i64::MAX,
        later < now + LEASE_SECONDS,
    ensures
        !eligible(lease(outbox, id, now), id, later),
{
}

/// The worker that claimed a job can record its attempt while its lease is
/// live: the leased job is pending, on the attempt the claim handed out, and
/// leased until thirty seconds after the claim.
pub proof fn law_live_leases_are_acknowledged(outbox: Outbox, id: i64, now: i64, later: i64)
    requires
        now + LEASE_SECONDS <= i64::MAX,
        picks(swept(outbox, now), id, now),
        later < now + LEASE_SECONDS,
    ensures
        acknowledges(
            lease(swept(outbox, now), id, now).jobs[id],
            lease(swept(outbox, now), id, now).jobs[id].attempts,
            later,
        ),
{
}

/// A previous lease holder cannot acknowledge a replacement worker's attempt:
/// a completion whose attempt is not the job's current one, or whose lease
/// has ended, changes nothing and is reported as not applied.
pub proof fn law_stale_acknowledgements_change_nothing(
    outbox: Outbox,
    delivery: Delivery,
    plan: CompletionPlan,
    now: i64,
)
    requires
        outbox.jobs.dom().contains(delivery.invitation_id),
        outbox.jobs[delivery.invitation_id].attempts != delivery.attempt || lease_free(
            outbox.jobs[delivery.invitation_id],
            now,
        ),
    ensures
        completion(outbox, delivery, plan, now) == (outbox, false),
{
}

/// A live completion records what `completion_plan` decides: the state and
/// reason of `planned_state`, the backoff schedule, no lease, and the
/// credential kept only while the job stays pending.
pub proof fn law_completion_records_the_plan(
    outbox: Outbox,
    delivery: Delivery,
    outcome: Completion,
    plan: CompletionPlan,
    now: i64,
)
    requires
        (plan.state, plan.reason) == planned_state(delivery.attempt, outcome),
        plan.next_attempt_at == now + backoff(delivery.attempt as int),
        plan.keeps_payload == (plan.state == "pending"),
        outbox.jobs.dom().contains(delivery.invitation_id),
        acknowledges(outbox.jobs[delivery.invitation_id], delivery.attempt, now),
    ensures
        ({
            let (after, applied) = completion(outbox, delivery, plan, now);
            let row = after.jobs[delivery.invitation_id];
            &&& applied
            &&& row.state == planned_state(delivery.attempt, outcome).0@
            &&& row.reason == Some(planned_state(delivery.attempt, outcome).1@)
            &&& row.next_attempt_at == now + backoff(delivery.attempt as int)
            &&& row.lease_until is None
            &&& !plan.keeps_payload ==> row.recipient is None && row.token is None
            &&& plan.keeps_payload ==> row.recipient == outbox.jobs[delivery.invitation_id].recipient
                && row.token == outbox.jobs[delivery.invitation_id].token
        }),
{
}

/// What an attempt's outcome records, on every attempt: a mail the server
/// accepted is sent and a permanent refusal is dead, whatever the attempt
/// number; only a transient failure depends on it, retried below
/// `MAX_ATTEMPTS` and dead from then on. Only a retried job stays pending.
pub proof fn law_outcomes_decide_the_record(attempt: i64)
    ensures
        planned_state(attempt, Completion::Sent) == ("sent", "smtp_accepted"),
        planned_state(attempt, Completion::PermanentFailure) == ("dead", "permanent_failure"),
        attempt >= MAX_ATTEMPTS ==> planned_state(attempt, Completion::Retry) == (
            "dead",
            "attempts_exhausted",
        ),
        attempt < MAX_ATTEMPTS ==> planned_state(attempt, Completion::Retry) == (
            "pending",
            "transient_failure",
        ),
        forall|a: i64, o: Completion|
            (#[trigger] planned_state(a, o)).0 == "pending" ==> o is Retry && a < MAX_ATTEMPTS,
{
    reveal_strlit("pending");
    reveal_strlit("sent");
    reveal_strlit("dead");
    assert forall|a: i64, o: Completion|
        (#[trigger] planned_state(a, o)).0 == "pending" implies o is Retry && a < MAX_ATTEMPTS by {
        if !(o is Retry && a < MAX_ATTEMPTS) {
            let s = planned_state(a, o).0;
            assert(s@ != "pending"@) by {
                assert(s@.len() != "pending"@.len());
            }
        }
    }
}

/// Retries back off: the delay never shrinks from one attempt to the next,
/// and never exceeds a minute.
pub proof fn law_backoff_grows_to_a_minute(a: int, b: int)
    requires
        1 <= a <= b,
    ensures
        backoff(a) <= backoff(b),
        5 <= backoff(a) <= 60,
{
    lemma_pow2_grows((a - 1) as nat, (b - 1) as nat);
    lemma_pow2_grows(0, (a - 1) as nat);
}

/// The attempt that uses up the budget is final: a transient failure then
/// is recorded dead rather than retried.
pub proof fn law_last_attempt_is_final(attempt: i64)
    requires
        attempt >= MAX_ATTEMPTS,
    ensures
        planned_state(attempt, Completion::Retry).0 == "dead",
{
}

} // verus!
