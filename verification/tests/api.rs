//! The HTTP contract: identifiers, bodies, statuses and problem codes.
use sha2::Digest;
use iris::api::auth::{
    BrowserSession, Callback, CallbackAction, ConfigError, ExchangeFailure, IdTokenClaims,
    LoginAttempt, VerifiedLogin, boundary_decision, exchanged, login_from_claims, callback_consumed, callback_identity, callback_promoted,
    callback_start, callback_url, callback_verified, check_issuer, check_origin, is_safe_method,
    keep_session, needs_internal_body, random, session_cookie_name, session_info_reply, single,
};
use iris::api::invitations::{IssueRequest, id, issue_failure_error, issue_input, issue_reply};
use iris::api::members::{Role, apply_input, apply_reply};
use iris::api::{
    AcceptRequest, Actor, ApiError, ErrorCode, accept_input, accept_reply, accept_responses,
    database_error, description_of, development_actor, issue_responses, member_responses, require_actor,
};
use iris::database::DbError;
use iris::invitations::{IssueFailure, IssueOutcome, Outcome};
use iris::members::{MemberOutcome, MemberRole};

fn no_error() -> DbError {
    DbError { code: None, detail: "protocol".into() }
}

fn busy() -> DbError {
    DbError { code: Some("5".into()), detail: "database is locked".into() }
}

fn code<T>(r: Result<T, ApiError>) -> ErrorCode {
    match r {
        Ok(_) => panic!("expected an error"),
        Err(e) => e.0,
    }
}

#[test]
fn identifiers_are_canonical_positive_i64() {
    assert_eq!(id("41").ok(), Some(41));
    assert_eq!(id("9223372036854775807").ok(), Some(i64::MAX));
    for invalid in ["", "0", "041", "-1", "+41", "4 1", "9223372036854775808", "99999999999999999999", "41a", "٤١"] {
        assert_eq!(code(id(invalid)), ErrorCode::InvalidRequest, "{invalid}");
    }
}

#[test]
fn token_length_is_counted_in_characters() {
    let actor = Actor::new(11);
    let emoji = AcceptRequest { token: "😀".repeat(256) };
    assert!(accept_input(&emoji, &actor, 5).is_ok());
    let long = AcceptRequest { token: "x".repeat(257) };
    assert_eq!(code(accept_input(&long, &actor, 5)), ErrorCode::InvalidRequest);
    let empty = AcceptRequest { token: String::new() };
    assert_eq!(code(accept_input(&empty, &actor, 5)), ErrorCode::InvalidRequest);
    let ok = AcceptRequest { token: "iris-valid".into() };
    let input = accept_input(&ok, &actor, 77).ok().unwrap();
    assert_eq!((input.token, input.user_id, input.now), ("iris-valid", 11, 77));
}

#[test]
fn acceptance_outcomes_become_responses() {
    let a = accept_reply(11, Ok(Outcome::Accepted { project_id: 7 })).ok().unwrap();
    assert_eq!((a.project_id.as_str(), a.user_id.as_str()), ("7", "11"));
    assert_eq!(code(accept_reply(11, Ok(Outcome::NotFound))), ErrorCode::NotFound);
    assert_eq!(code(accept_reply(11, Ok(Outcome::Expired))), ErrorCode::Expired);
    assert_eq!(code(accept_reply(11, Ok(Outcome::AlreadyAccepted))), ErrorCode::AlreadyAccepted);
    assert_eq!(code(accept_reply(11, Err(busy()))), ErrorCode::Unavailable);
    assert_eq!(code(accept_reply(11, Err(no_error()))), ErrorCode::Internal);
}

#[test]
fn problems_carry_status_code_and_message() {
    let (status, problem) = ApiError(ErrorCode::Internal).into_response();
    assert_eq!(status, 500);
    assert_eq!(problem.message, "The request could not be completed.");
    assert_eq!(problem.code.as_str(), "internal");
    for (c, s, name) in [
        (ErrorCode::InvalidRequest, 400, "invalid_request"),
        (ErrorCode::Csrf, 403, "csrf"),
        (ErrorCode::LoginFailed, 401, "login_failed"),
        (ErrorCode::Forbidden, 403, "forbidden"),
        (ErrorCode::RecipientNotFound, 404, "recipient_not_found"),
        (ErrorCode::AlreadyMember, 409, "already_member"),
        (ErrorCode::InvitationPending, 409, "invitation_pending"),
        (ErrorCode::Unauthorized, 401, "unauthorized"),
        (ErrorCode::NotFound, 404, "not_found"),
        (ErrorCode::Expired, 409, "expired"),
        (ErrorCode::AlreadyAccepted, 409, "already_accepted"),
        (ErrorCode::MemberNotFound, 404, "member_not_found"),
        (ErrorCode::LastOwner, 409, "last_owner"),
        (ErrorCode::Unavailable, 503, "unavailable"),
    ] {
        assert_eq!(ApiError(c).status(), s);
        assert_eq!(c.as_str(), name);
    }
    assert_eq!(ApiError(ErrorCode::Unavailable).message(), "The database is busy. Try again shortly.");
}

#[test]
fn database_errors_are_sanitized() {
    assert_eq!(database_error(busy()).0, ErrorCode::Unavailable);
    assert_eq!(database_error(DbError { code: Some("517".into()), detail: String::new() }).0, ErrorCode::Unavailable);
    assert_eq!(database_error(DbError { code: Some("19".into()), detail: String::new() }).0, ErrorCode::Internal);
    assert_eq!(database_error(no_error()).0, ErrorCode::Internal);
}

fn issue_body(project: &str, recipient: &str) -> IssueRequest {
    IssueRequest { project_id: project.into(), recipient_id: recipient.into() }
}

#[test]
fn issue_request_and_response() {
    let actor = Actor::new(11);
    let input = issue_input(&issue_body("41", "29"), &actor, 100).ok().unwrap();
    assert_eq!((input.project_id, input.recipient_id, input.actor_id, input.now), (41, 29, 11, 100));
    assert_eq!(code(issue_input(&issue_body("041", "29"), &actor, 100)), ErrorCode::InvalidRequest);
    assert_eq!(code(issue_input(&issue_body("41", "9223372036854775808"), &actor, 100)), ErrorCode::InvalidRequest);
    let issued = issue_reply(
        issue_body("41", "29"),
        Ok(IssueOutcome::Issued { token: "t".repeat(64), expires_at: 3700 }),
    )
    .ok()
    .unwrap();
    assert_eq!(issued.expires_at, "3700");
    assert_eq!(issued.project_id, "41");
    assert_eq!(issued.recipient_id, "29");
    assert_eq!(issued.token.len(), 64);
    for (outcome, expected) in [
        (IssueOutcome::Forbidden, ErrorCode::Forbidden),
        (IssueOutcome::RecipientNotFound, ErrorCode::RecipientNotFound),
        (IssueOutcome::AlreadyMember, ErrorCode::AlreadyMember),
        (IssueOutcome::InvitationPending, ErrorCode::InvitationPending),
    ] {
        assert_eq!(code(issue_reply(issue_body("41", "29"), Ok(outcome))), expected);
    }
    assert_eq!(code(issue_reply(issue_body("41", "29"), Err(busy()))), ErrorCode::Unavailable);
}

#[test]
fn member_request_and_response() {
    let actor = Actor::new(11);
    let input = apply_input(&actor, "41", "29", Some(Role::Viewer)).ok().unwrap();
    assert_eq!((input.project_id, input.user_id, input.actor_id, input.role), (41, 29, 11, Some(MemberRole::Viewer)));
    assert_eq!(code(apply_input(&actor, "41", "029", None)), ErrorCode::InvalidRequest);
    let changed = apply_reply("41".into(), "29".into(), None, Ok(MemberOutcome::Changed)).ok().unwrap();
    assert_eq!((changed.project_id.as_str(), changed.user_id.as_str(), changed.role), ("41", "29", None));
    assert_eq!(code(apply_reply("41".into(), "29".into(), None, Ok(MemberOutcome::LastOwner))), ErrorCode::LastOwner);
    assert_eq!(code(apply_reply("41".into(), "29".into(), None, Ok(MemberOutcome::MemberNotFound))), ErrorCode::MemberNotFound);
    assert_eq!(code(apply_reply("41".into(), "29".into(), None, Ok(MemberOutcome::Forbidden))), ErrorCode::Forbidden);
}

#[test]
fn documented_statuses() {
    let statuses = |v: Vec<iris::api::Documented>| v.iter().map(|d| d.status).collect::<Vec<_>>();
    assert_eq!(statuses(accept_responses()), [200, 400, 401, 403, 404, 409, 500, 503]);
    assert_eq!(statuses(issue_responses()), [201, 400, 401, 403, 404, 409, 500, 503]);
    assert_eq!(member_responses(true)[0].description, "Membership removed");
    assert_eq!(member_responses(false)[5].description, "Last owner must remain");
    assert_eq!(description_of(&accept_responses(), 404), "Unknown token or wrong recipient");
    assert_eq!(description_of(&issue_responses(), 201), "Invitation issued; membership unchanged");
    assert_eq!(description_of(&issue_responses(), 200), "");
}

#[test]
fn development_identity_admits_only_synthetic_users() {
    assert_eq!(development_actor(&[Some("11")]).map(|a| a.id()), Some(11));
    assert_eq!(development_actor(&[Some("29")]).map(|a| a.id()), Some(29));
    assert!(development_actor(&[Some("12")]).is_none());
    assert!(development_actor(&[Some("11"), Some("11")]).is_none());
    assert!(development_actor(&[None]).is_none());
    assert!(development_actor(&[]).is_none());
    assert_eq!(code(require_actor(None)), ErrorCode::Unauthorized);
    assert_eq!(require_actor(Some(Actor::new(5))).ok().unwrap().id(), 5);
}

fn session(user: Option<i64>) -> Option<BrowserSession> {
    Some(BrowserSession { csrf: "csrf-canary".into(), user_id: user, expires_at: 1000 })
}

#[test]
fn csrf_is_required_for_unsafe_methods() {
    let origin = "http://127.0.0.1:5173";
    let ok = boundary_decision("POST", &[Some(origin)], &[Some("csrf-canary")], origin, &session(Some(11)));
    assert_eq!(ok.ok().unwrap().map(|a| a.id()), Some(11));
    for (origins, tokens) in [
        (vec![Some("https://evil.example")], vec![Some("csrf-canary")]),
        (vec![], vec![Some("csrf-canary")]),
        (vec![Some(origin), Some(origin)], vec![Some("csrf-canary")]),
        (vec![Some(origin)], vec![Some("wrong")]),
        (vec![Some(origin)], vec![]),
    ] {
        let r = boundary_decision("POST", &origins, &tokens, origin, &session(Some(11)));
        assert_eq!(code(r), ErrorCode::Csrf);
    }
    assert_eq!(code(boundary_decision("POST", &[Some(origin)], &[Some("csrf-canary")], origin, &None)), ErrorCode::Csrf);
    let read = boundary_decision("GET", &[], &[], origin, &session(None));
    assert!(read.ok().unwrap().is_none());
    assert!(is_safe_method("HEAD") && is_safe_method("OPTIONS") && !is_safe_method("DELETE"));
    assert_eq!(single(&[Some("a")]), Some("a"));
    assert_eq!(single(&[Some("a"), Some("b")]), None);
}

#[test]
fn sessions_expire_and_follow_their_user() {
    let data = session(Some(11)).unwrap();
    assert!(keep_session(&data, 999, true));
    assert!(!keep_session(&data, 1000, true));
    assert!(!keep_session(&data, 10, false));
    let info = session_info_reply(&data);
    assert_eq!(info.user_id.as_deref(), Some("11"));
    assert_eq!(info.csrf_token, "csrf-canary");
    assert_eq!(session_cookie_name(true), "__Host-iris-session");
    assert_eq!(session_cookie_name(false), "iris-session-dev");
    assert!(needs_internal_body(502, false));
    assert!(!needs_internal_body(502, true));
    assert!(!needs_internal_body(404, false));
    assert_eq!(callback_url("https://example.com"), "https://example.com/api/auth/callback");
}

#[test]
fn random_secrets_are_fresh_hex() {
    let a = random().ok().unwrap();
    let b = random().ok().unwrap();
    assert_eq!(a.len(), 64);
    assert!(a.bytes().all(|c| c.is_ascii_hexdigit() && !c.is_ascii_uppercase()));
    assert_ne!(a, b);
}

#[test]
fn https_cookie_and_invalid_origin_configuration() {
    assert_eq!(check_origin("https://example.com"), Ok(true));
    assert_eq!(check_origin("http://127.0.0.1:5173"), Ok(false));
    assert_eq!(check_origin("http://localhost:3000"), Ok(false));
    assert_eq!(check_origin("http://example.com"), Err(ConfigError::Origin));
    assert_eq!(check_origin("https://example.com/path"), Err(ConfigError::Origin));
    assert_eq!(check_origin("https://example.com/"), Err(ConfigError::Origin));
    assert_eq!(check_origin("not a url"), Err(ConfigError::InvalidUrl));
    assert_eq!(check_issuer("https://id.example/realm"), Ok(()));
    assert_eq!(check_issuer("http://localhost:9000/"), Ok(()));
    assert_eq!(check_issuer("http://id.example"), Err(ConfigError::Issuer));
}

fn login_failed(action: CallbackAction) -> bool {
    matches!(action, CallbackAction::Fail(ApiError(ErrorCode::LoginFailed)))
}

#[test]
fn oidc_callback_consumes_attempts_once_and_never_resurrects() {
    let query = Callback { state: "s".into(), code: Some("c".into()) };
    assert!(login_failed(callback_start(&None, Some("b".into()), 5)));
    assert!(login_failed(callback_start(&Some(Callback { state: "s".into(), code: None }), None, 5)));
    match callback_start(&Some(Callback { state: "s".into(), code: None }), Some("b".into()), 5) {
        CallbackAction::ConsumeAttempt { state, browser_id, now } => {
            assert_eq!((state.as_str(), browser_id.as_str(), now), ("s", "b", 5))
        }
        _ => panic!(),
    }
    // A consumed (replayed) or expired attempt never reaches the exchange.
    assert!(login_failed(callback_consumed(&query, Ok(None))));
    assert!(matches!(callback_consumed(&query, Err(no_error())), CallbackAction::Fail(ApiError(ErrorCode::Internal))));
    let attempt = LoginAttempt { nonce: "n".into(), verifier: "v".into() };
    assert!(login_failed(callback_consumed(&Callback { state: "s".into(), code: None }, Ok(Some(attempt)))));
    let attempt = LoginAttempt { nonce: "n".into(), verifier: "v".into() };
    assert!(matches!(callback_consumed(&query, Ok(Some(attempt))), CallbackAction::Exchange { .. }));
    assert!(login_failed(callback_verified(Err(ExchangeFailure::Rejected))));
    assert!(login_failed(callback_verified(Ok(VerifiedLogin { subject: "alice".into(), access_token_hash_matches: Some(false) }))));
    assert!(matches!(
        callback_verified(Ok(VerifiedLogin { subject: "alice".into(), access_token_hash_matches: None })),
        CallbackAction::MapIdentity { .. }
    ));
    assert!(login_failed(callback_identity(Ok(None), "b".into(), 5)));
    assert!(matches!(callback_identity(Ok(Some(11)), "b".into(), 5), CallbackAction::Promote { user_id: 11, .. }));
    // Logout won the race: the browser session is gone, nothing is created.
    assert!(login_failed(callback_promoted(Ok(false), 11, 5)));
    match callback_promoted(Ok(true), 11, 5) {
        CallbackAction::Establish(data) => {
            assert_eq!(data.user_id, Some(11));
            assert_eq!(data.expires_at, 5 + 28800);
            assert_eq!(data.csrf.len(), 64);
        }
        _ => panic!(),
    }
}

#[test]
fn stopped_issuance_is_reported_as_an_internal_failure() {
    let overflow = issue_failure_error(IssueFailure::ExpiryOverflow);
    assert!(overflow.code.is_none());
    assert_eq!(overflow.detail, "invitation expiry overflow");
    let random = issue_failure_error(IssueFailure::RandomUnavailable);
    assert!(random.code.is_none());
    assert_eq!(random.detail, "random source unavailable");
    assert_eq!(code(Err::<(), _>(database_error(random))), ErrorCode::Internal);
}

fn claims(hash: Option<&str>) -> Option<IdTokenClaims> {
    Some(IdTokenClaims { subject: "alice".into(), access_token_hash: hash.map(String::from) })
}

#[test]
fn id_token_claims_decide_the_login() {
    let rejected = |r: Result<VerifiedLogin, ExchangeFailure>| matches!(r, Err(ExchangeFailure::Rejected));
    assert!(rejected(login_from_claims(None, None)));
    let plain = login_from_claims(claims(None), None).ok().unwrap();
    assert_eq!(plain.subject, "alice");
    assert_eq!(plain.access_token_hash_matches, None);
    assert!(rejected(login_from_claims(claims(Some("abc")), None)));
    let same = login_from_claims(claims(Some("abc")), Some("abc".into())).ok().unwrap();
    assert_eq!(same.access_token_hash_matches, Some(true));
    let other = login_from_claims(claims(Some("abc")), Some("abd".into())).ok().unwrap();
    assert_eq!(other.access_token_hash_matches, Some(false));
    assert!(matches!(callback_verified(Ok(other)), CallbackAction::Fail(e) if e.0 == ErrorCode::LoginFailed));
}

fn base64url(bytes: &[u8]) -> String {
    let table = b"ABCDEFGHIJKLMNOPQRSTUVWXYZabcdefghijklmnopqrstuvwxyz0123456789-_";
    let mut out = String::new();
    for chunk in bytes.chunks(3) {
        let n = chunk.iter().enumerate().fold(0u32, |n, (i, b)| n | (*b as u32) << (16 - 8 * i));
        for i in 0..chunk.len() + 1 {
            out.push(table[(n >> (18 - 6 * i) & 63) as usize] as char);
        }
    }
    out
}

fn hmac_sha256(key: &[u8], message: &[u8]) -> Vec<u8> {
    let mut block = [0u8; 64];
    block[..key.len()].copy_from_slice(key);
    let inner: Vec<u8> = block.iter().map(|b| b ^ 0x36).chain(message.iter().copied()).collect();
    let inner = sha2::Sha256::digest(&inner);
    let outer: Vec<u8> = block.iter().map(|b| b ^ 0x5c).chain(inner.iter().copied()).collect();
    sha2::Sha256::digest(&outer).to_vec()
}

const ISSUER: &str = "https://issuer.test";
const SECRET: &str = "client-secret-canary";

/// An ID token signed with the client secret (HS256).
fn signed_id_token(claims: &str) -> String {
    let signing_input = format!(
        "{}.{}",
        base64url(br#"{"alg":"HS256","typ":"JWT"}"#),
        base64url(claims.as_bytes())
    );
    let signature = hmac_sha256(SECRET.as_bytes(), signing_input.as_bytes());
    format!("{signing_input}.{}", base64url(&signature))
}

fn verify(token: &str, client_id: &str, nonce: &str, now: i64) -> Result<VerifiedLogin, ExchangeFailure> {
    exchanged(
        Some(token.into()),
        "access-token",
        r#"{"keys":[]}"#,
        r#"["HS256"]"#,
        ISSUER,
        client_id,
        Some(SECRET),
        nonce,
        now,
    )
}

#[test]
fn id_tokens_are_verified_against_client_nonce_and_time() {
    let token = signed_id_token(
        r#"{"iss":"https://issuer.test","sub":"alice","aud":["iris-local"],"exp":2000000000,"iat":1700000000,"nonce":"n-1"}"#,
    );
    let ok = verify(&token, "iris-local", "n-1", 1_800_000_000).ok().unwrap();
    assert_eq!(ok.subject, "alice");
    assert_eq!(ok.access_token_hash_matches, None);
    let rejected = |r: Result<VerifiedLogin, ExchangeFailure>| matches!(r, Err(ExchangeFailure::Rejected));
    assert!(rejected(verify(&token, "iris-local", "n-1", 2_000_000_000)), "expired at exp");
    assert!(rejected(verify(&token, "iris-local", "n-2", 1_800_000_000)), "wrong nonce");
    assert!(rejected(verify(&token, "other-client", "n-1", 1_800_000_000)), "wrong audience");
    let mut forged = token.clone();
    forged.pop();
    forged.push(if token.ends_with('A') { 'B' } else { 'A' });
    assert!(rejected(verify(&forged, "iris-local", "n-1", 1_800_000_000)), "bad signature");
    let public = exchanged(Some(token), "access-token", r#"{"keys":[]}"#, r#"["HS256"]"#, ISSUER, "iris-local", None, "n-1", 1_800_000_000);
    assert!(rejected(public), "a public client has no shared secret");
}

#[test]
fn token_responses_without_a_valid_id_token_are_refused() {
    let keys = r#"{"keys":[]}"#;
    let algs = r#"["RS256"]"#;
    let issuer = "http://127.0.0.1:4000";
    let missing = exchanged(None, "access", keys, algs, issuer, "iris-local", None, "nonce", 1_700_000_000);
    assert!(matches!(missing, Err(ExchangeFailure::Rejected)));
    let garbage = exchanged(Some("not-a-jwt".into()), "access", keys, algs, issuer, "iris-local", None, "nonce", 1_700_000_000);
    assert!(matches!(garbage, Err(ExchangeFailure::Rejected)));
}
