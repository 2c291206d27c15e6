//! Text forms, digests, driver errors, the outbox, mail, and the isolated
//! role-change contract.
use iris::api::ErrorCode;
use iris::api::delivery::{MailOrigin, SendResult, message, send_outcome};
use iris::api::s16::action::{
    ActionError, Cleanup, FailureKind, Rejection, Stage, StopReason, begin_failed, body_outcome,
    committed,
};
use iris::api::s16::{
    Shared, endpoint_input, new_request_id, prerequisites, reply, responses, shared_for,
    status_groups,
};
use iris::api::members::{ChangeRoleRequest, Role};
use iris::api::Actor;
use iris::clock::{unix_seconds, unix_time};
use iris::crypto::{constant_time_eq, token_hash};
use iris::database::{DbError, is_busy, settle};
use iris::members::MemberOutcome;
use iris::outbox::{
    ClaimAction, Completion, Delivery, LeasedJob, claim_leased, claim_read, claim_start, claim_swept,
    completion_plan, lease_until,
};
use iris::text::{decimal_string, hex_lower, parse_canonical_id};
use iris::turso::{SchemaStep, TursoError, schema_step};

fn db(code: Option<&str>) -> DbError {
    DbError { code: code.map(str::to_string), detail: "driver text".into() }
}

#[test]
fn decimal_and_hex_text() {
    assert_eq!(decimal_string(0), "0");
    assert_eq!(decimal_string(3700), "3700");
    assert_eq!(decimal_string(-5), "-5");
    assert_eq!(decimal_string(i64::MIN), i64::MIN.to_string());
    assert_eq!(decimal_string(i64::MAX), i64::MAX.to_string());
    assert_eq!(hex_lower(&[0xbe, 0xef, 0x01]), "beef01");
    assert_eq!(parse_canonical_id("19"), Some(19));
    assert_eq!(parse_canonical_id("00"), None);
}

#[test]
fn credential_digest_is_sha256() {
    // SHA-256("abc").
    assert_eq!(
        hex_lower(&token_hash("abc")),
        "ba7816bf8f01cfea414140de5dae2223b00361a396177a9cb410ff61f20015ad"
    );
    assert!(constant_time_eq("csrf", "csrf"));
    assert!(!constant_time_eq("csrf", "csrg"));
    assert!(!constant_time_eq("csrf", "csrf-longer"));
}

#[test]
fn busy_is_the_low_byte_of_the_result_code() {
    for busy in ["5", "+5", "0005", "261", "517", "-251"] {
        assert!(is_busy(&db(Some(busy))), "{busy}");
    }
    for other in ["6", "19", "2067", "", "-", "x5", "99999999999", "5 "] {
        assert!(!is_busy(&db(Some(other))), "{other}");
    }
    assert!(!is_busy(&db(None)));
    assert!(iris::turso::is_busy(&TursoError::Busy("locked".into())));
    assert!(!iris::turso::is_busy(&TursoError::Other("constraint".into())));
}

#[test]
fn transactions_settle_with_their_ending() {
    assert_eq!(settle(Ok::<i32, DbError>(1), Ok(())).ok(), Some(1));
    assert_eq!(settle(Ok::<i32, DbError>(1), Err(db(Some("5")))).err().unwrap().code.as_deref(), Some("5"));
    assert_eq!(settle(Err::<i32, DbError>(db(None)), Ok(())).err().unwrap().code, None);
    assert_eq!(settle(Err::<i32, DbError>(db(None)), Err(db(Some("6")))).err().unwrap().code.as_deref(), Some("6"));
}

#[test]
fn schema_steps() {
    assert_eq!(schema_step(0), SchemaStep::ApplyFirstMigration);
    assert_eq!(schema_step(1), SchemaStep::UpToDate);
    assert_eq!(schema_step(2), SchemaStep::Unsupported);
}

fn job(attempt: i64) -> Delivery {
    Delivery {
        invitation_id: 1,
        recipient: "bob@example.test".into(),
        token: "secret".into(),
        attempt,
        project_id: 41,
    }
}

#[test]
fn snapshot_backoff_crash_recovery_and_stale_ack() {
    let retry = completion_plan(&job(2), Completion::Retry, 131);
    assert_eq!((retry.state, retry.reason, retry.next_attempt_at, retry.keeps_payload), ("pending", "transient_failure", 141, true));
    let sent = completion_plan(&job(3), Completion::Sent, 142);
    assert_eq!((sent.state, sent.reason, sent.keeps_payload), ("sent", "smtp_accepted", false));
    for (attempt, delay) in [(1, 5), (2, 10), (3, 20), (4, 40), (5, 60), (61, 60)] {
        assert_eq!(completion_plan(&job(attempt), Completion::Sent, 0).next_attempt_at, delay);
    }
    let exhausted = completion_plan(&job(5), Completion::Retry, 0);
    assert_eq!((exhausted.state, exhausted.reason, exhausted.keeps_payload), ("dead", "attempts_exhausted", false));
    let permanent = completion_plan(&job(1), Completion::PermanentFailure, 0);
    assert_eq!((permanent.state, permanent.reason), ("dead", "permanent_failure"));
    assert_eq!(lease_until(100), 130);
}

#[test]
fn invitation_mail_for_local_capture() {
    let origin = MailOrigin::new("http://127.0.0.1:5174".into()).ok().unwrap();
    assert!(MailOrigin::new("http://example.com".into()).is_err());
    let m = message(&origin, &job(1)).unwrap();
    assert_eq!(m.to, "bob@example.test");
    assert_eq!(m.subject, "Iris: invitation to project 41");
    assert_eq!(m.message_id, format!("<invitation-{}@iris.test>", hex_lower(&token_hash("secret"))));
    assert!(m.body.starts_with("Local Iris experiment — no real email was sent.\n\nYou have been invited to project 41."));
    assert!(m.body.contains("http://127.0.0.1:5174/#invitation=secret\n"));
    let mut elsewhere = job(1);
    elsewhere.recipient = "bob@example.com".into();
    assert!(message(&origin, &elsewhere).is_none());
    elsewhere.recipient = "not an address".into();
    assert!(message(&origin, &elsewhere).is_none());
    assert!(matches!(send_outcome(SendResult::NotBuilt), Completion::PermanentFailure));
    assert!(matches!(send_outcome(SendResult::Accepted), Completion::Sent));
    assert!(matches!(send_outcome(SendResult::Refused { permanent: true }), Completion::PermanentFailure));
    assert!(matches!(send_outcome(SendResult::Refused { permanent: false }), Completion::Retry));
    assert!(matches!(send_outcome(SendResult::TimedOut), Completion::Retry));
}

#[test]
fn independent_contract() {
    let table = responses();
    let codes: Vec<_> = table.iter().filter_map(|m| m.code).collect();
    let mut unique = codes.clone();
    unique.sort();
    unique.dedup();
    assert_eq!(codes.len(), unique.len(), "duplicate public code");
    let groups = status_groups(&table);
    let statuses: Vec<u16> = groups.iter().map(|g| g.0).collect();
    assert_eq!(statuses, [200, 400, 401, 403, 404, 409, 500, 503]);
    let conflict: Vec<_> = groups[5].1.iter().map(|m| (m.kind, m.code)).collect();
    assert_eq!(conflict, [("rejected", Some("memberships.last_owner"))]);
    let forbidden: Vec<_> = groups[3].1.iter().map(|m| m.code.unwrap()).collect();
    assert_eq!(forbidden, ["memberships.forbidden", "http.csrf_refused"]);
    assert_eq!(groups[0].1[0].kind, "success");
    assert_eq!(prerequisites(), [("memberships.last_owner", "memberships.another_owner_required")]);
}

#[test]
fn failed_cleanup_never_projects_rejection() {
    let failed = ActionError::Failed {
        primary: StopReason::Rejected(Rejection::LastOwner),
        cleanup: Cleanup::Unconfirmed { rollback_error: Some(FailureKind::Other) },
    };
    let r = reply("req_1".into(), Err(failed));
    assert_eq!(r.request_id, "req_1");
    assert_eq!(r.mapping.status, 500);
    assert_eq!(r.mapping.code, Some("iris.internal"));
    assert!(r.data.is_none());
    let rejected = reply("req_2".into(), Err(ActionError::Rejected(Rejection::LastOwner)));
    assert_eq!((rejected.mapping.status, rejected.mapping.code), (409, Some("memberships.last_owner")));
    let ok = reply("req_3".into(), Ok(iris::api::s16::action::Acknowledged));
    assert_eq!((ok.mapping.status, ok.mapping.kind), (200, "success"));
    assert!(ok.data.is_some());
}

#[test]
fn begin_and_commit_errors_do_not_claim_cleanup() {
    let begin = begin_failed(db(Some("5")));
    assert_eq!(
        begin,
        ActionError::Failed {
            primary: StopReason::Execution { stage: Stage::Begin, kind: FailureKind::Busy },
            cleanup: Cleanup::Unconfirmed { rollback_error: None },
        }
    );
    assert_eq!(reply("req_4".into(), Err(begin)).mapping.status, 503);
    let commit = committed(Err(db(None))).err().unwrap();
    assert_eq!(
        commit,
        ActionError::Failed {
            primary: StopReason::Execution { stage: Stage::Commit, kind: FailureKind::Other },
            cleanup: Cleanup::Unconfirmed { rollback_error: None },
        }
    );
    assert!(committed(Ok(())).is_ok());
    assert_eq!(body_outcome(MemberOutcome::Changed), None);
    assert_eq!(body_outcome(MemberOutcome::LastOwner), Some(StopReason::Rejected(Rejection::LastOwner)));
}

#[test]
fn whole_request_refusals_in_order() {
    let body = || ChangeRoleRequest { project_id: "41".into(), user_id: "29".into(), role: Role::Viewer };
    assert!(matches!(endpoint_input(None, Some(body())), Err(Shared::Unauthenticated)));
    assert!(matches!(endpoint_input(Some(Actor::new(11)), None), Err(Shared::Invalid)));
    let bad = ChangeRoleRequest { project_id: "9223372036854775808".into(), user_id: "29".into(), role: Role::Owner };
    assert!(matches!(endpoint_input(Some(Actor::new(11)), Some(bad)), Err(Shared::Invalid)));
    let (actor, input) = endpoint_input(Some(Actor::new(11)), Some(body())).ok().unwrap();
    assert_eq!((actor.id(), input.project_id, input.user_id), (11, 41, 29));
    assert!(matches!(shared_for(Some(ErrorCode::Csrf)), Some(Shared::Csrf)));
    assert!(matches!(shared_for(Some(ErrorCode::Unauthorized)), Some(Shared::Unauthenticated)));
    assert!(shared_for(Some(ErrorCode::Forbidden)).is_none());
    assert!(shared_for(None).is_none());
    let id = new_request_id().ok().unwrap();
    assert_eq!(id.len(), 36);
    assert!(id.starts_with("req_"));
    assert!(id[4..].bytes().all(|b| b.is_ascii_hexdigit()));
}

#[test]
fn the_clock_reads_after_the_epoch() {
    assert!(unix_time().unwrap() > 1_600_000_000);
}


#[test]
fn clock_seconds_convert_within_the_i64_range() {
    assert_eq!(unix_seconds(Some(1_700_000_000)), Some(1_700_000_000));
    assert_eq!(unix_seconds(Some(i64::MAX as u64)), Some(i64::MAX));
    assert_eq!(unix_seconds(Some(i64::MAX as u64 + 1)), None);
    assert_eq!(unix_seconds(None), None);
}

struct Job {
    state: &'static str,
    recipient: Option<String>,
    token: Option<String>,
    attempts: i64,
    next_attempt_at: i64,
    lease_until: Option<i64>,
}

/// Runs one claim's steps against in-memory jobs: (invitation id, expires_at, accepted).
fn run_claim(jobs: &mut Vec<(i64, Job)>, invitations: &[(i64, i64, bool)], now: i64) -> Option<Delivery> {
    let finished = |id: i64, now: i64| invitations.iter().any(|(i, e, a)| *i == id && (*e <= now || *a));
    let mut action = claim_start(now);
    loop {
        action = match action {
            ClaimAction::Sweep { now, max_attempts } => {
                for (id, job) in jobs.iter_mut() {
                    let free = job.lease_until.map_or(true, |l| l <= now);
                    if job.state == "pending" && free && (job.attempts >= max_attempts || finished(*id, now)) {
                        *job = Job { state: "dead", recipient: None, token: None, lease_until: None, ..*job };
                    }
                }
                claim_swept(now)
            }
            ClaimAction::Lease { now, lease_until, max_attempts } => {
                let pick = jobs
                    .iter_mut()
                    .filter(|(id, j)| {
                        j.state == "pending" && j.next_attempt_at <= now && j.lease_until.map_or(true, |l| l <= now)
                            && j.attempts < max_attempts && !finished(*id, now)
                    })
                    .min_by_key(|(id, j)| (j.next_attempt_at, *id));
                claim_leased(pick.map(|(id, j)| {
                    j.attempts += 1;
                    j.lease_until = Some(lease_until);
                    LeasedJob {
                        invitation_id: *id,
                        recipient: j.recipient.clone().unwrap(),
                        token: j.token.clone().unwrap(),
                        attempts: j.attempts,
                    }
                }))
            }
            ClaimAction::ReadProject(job) => claim_read(job, 41),
            ClaimAction::Finish(delivery) => return delivery,
        };
    }
}

fn pending_job(next_attempt_at: i64) -> Job {
    Job {
        state: "pending",
        recipient: Some("bob@example.test".into()),
        token: Some("token".into()),
        attempts: 0,
        next_attempt_at,
        lease_until: None,
    }
}

#[test]
fn outbox_claims_skip_finished_and_leased_jobs() {
    let mut jobs = vec![(1, pending_job(100)), (2, pending_job(90)), (3, pending_job(50))];
    let invitations = [(1, 4000, false), (2, 4000, false), (3, 4000, true)];
    let first = run_claim(&mut jobs, &invitations, 100).unwrap();
    assert_eq!((first.invitation_id, first.attempt, first.project_id), (2, 1, 41));
    assert_eq!(jobs[2].1.state, "dead", "an accepted invitation's job is dead");
    assert!(jobs[2].1.token.is_none() && jobs[2].1.recipient.is_none());
    let second = run_claim(&mut jobs, &invitations, 110).unwrap();
    assert_eq!(second.invitation_id, 1, "a leased job is not claimed again");
    assert!(run_claim(&mut jobs, &invitations, 120).is_none());
    assert_eq!(run_claim(&mut jobs, &invitations, 130).unwrap().attempt, 2, "an expired lease frees the job");
}
