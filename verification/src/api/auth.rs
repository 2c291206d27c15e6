//! Browser sessions and OpenID Connect login: which origins and issuers are
//! accepted, when a session stays live, the CSRF rule for unsafe requests,
//! and the order of the login callback's steps.
use crate::api::{Actor, ApiError, ErrorCode};
use crate::crypto::{constant_time_eq, random_hex};
use crate::database::DbError;
use crate::text::{hex, signed_decimal, text_eq};
use openidconnect::{AccessToken, AccessTokenHash, ClientId, ClientSecret, IssuerUrl, Nonce};
use vstd::prelude::*;

verus! {

/// A fresh anonymous session, and a login attempt, last ten minutes.
pub const LOGIN_WINDOW_SECONDS: i64 = 600;

/// A signed-in session lasts eight hours from the login.
pub const SESSION_SECONDS: i64 = 28800;

/// The session data kept for a browser.
pub struct BrowserSession {
    pub csrf: String,
    pub user_id: Option<i64>,
    pub expires_at: i64,
}

pub struct SessionInfo {
    pub user_id: Option<String>,
    pub csrf_token: String,
}

pub struct LoginInfo {
    pub authorization_url: String,
}

/// The provider's redirect back to the callback.
pub struct Callback {
    pub state: String,
    pub code: Option<String>,
}

/// Any internal failure; its detail is not kept.
pub fn internal<E>(_error: E) -> (r: ApiError)
    ensures
        r.0 == ErrorCode::Internal,
{
    ApiError(ErrorCode::Internal)
}

/// A login that the provider or its token refused; its detail is not kept.
pub fn rejected<E>(_error: E) -> (r: ApiError)
    ensures
        r.0 == ErrorCode::LoginFailed,
{
    ApiError(ErrorCode::LoginFailed)
}

/// A new secret: 32 random bytes as 64 lower-case hex characters.
pub fn random() -> (r: Result<String, ApiError>)
    ensures
        r matches Ok(s) ==> exists|bytes: Seq<u8>| bytes.len() == 32 && s@ == hex(bytes),
        r matches Err(e) ==> e.0 == ErrorCode::Internal,
{
    match random_hex(32) {
        Ok(s) => Ok(s),
        Err(e) => Err(internal(e)),
    }
}

/// The value of a header that occurs exactly once with a textual value.
pub open spec fn single_value<'a>(values: Seq<Option<&'a str>>) -> Option<&'a str> {
    if values.len() == 1 {
        values[0]
    } else {
        None
    }
}

/// A header's value when it occurs exactly once and is text; `None` when it
/// is absent, repeated, or not text.
pub fn single<'a>(values: &[Option<&'a str>]) -> (r: Option<&'a str>)
    ensures
        r == single_value(values@),
{
    if values.len() == 1 {
        values[0]
    } else {
        None
    }
}

/// Whether a session is kept: it has not expired and its user, if any, still
/// exists.
pub open spec fn session_live(data: BrowserSession, now: i64, user_exists: bool) -> bool {
    data.expires_at > now && user_exists
}

/// Whether a loaded session is kept or flushed.
pub fn keep_session(data: &BrowserSession, now: i64, user_exists: bool) -> (r: bool)
    ensures
        r == session_live(*data, now, user_exists),
{
    !(data.expires_at <= now || !user_exists)
}

/// `GET`, `HEAD` and `OPTIONS` need no CSRF proof.
pub open spec fn safe_method(method: Seq<char>) -> bool {
    method == seq!['G', 'E', 'T'] || method == seq!['H', 'E', 'A', 'D'] || method == seq![
        'O',
        'P',
        'T',
        'I',
        'O',
        'N',
        'S',
    ]
}

pub fn is_safe_method(method: &str) -> (r: bool)
    ensures
        r == safe_method(method@),
{
    proof {
        reveal_strlit("GET");
        reveal_strlit("HEAD");
        reveal_strlit("OPTIONS");
        assert("GET"@ =~= seq!['G', 'E', 'T']);
        assert("HEAD"@ =~= seq!['H', 'E', 'A', 'D']);
        assert("OPTIONS"@ =~= seq!['O', 'P', 'T', 'I', 'O', 'N', 'S']);
    }
    text_eq(method, "GET") || text_eq(method, "HEAD") || text_eq(method, "OPTIONS")
}

/// An unsafe request is genuine when it carries exactly one `Origin` equal to
/// the configured origin, the session exists, and exactly one CSRF header
/// equal to the session's token.
pub open spec fn csrf_proven(
    origin_values: Seq<Option<&str>>,
    token_values: Seq<Option<&str>>,
    origin: Seq<char>,
    data: Option<BrowserSession>,
) -> bool {
    &&& single_value(origin_values) matches Some(o) && o@ == origin
    &&& data matches Some(d) && single_value(token_values) matches Some(t) && d.csrf@ == t@
}

/// The CSRF proof is about the browser, not the user: a session proves an
/// unsafe request with exactly one `Origin` equal to the configured origin and
/// exactly one CSRF header equal to its token, whether or not anyone is
/// signed in (an anonymous browser can start a login); without a session
/// nothing is proven.
pub proof fn law_csrf_proof_needs_no_user(
    origin_values: Seq<Option<&str>>,
    token_values: Seq<Option<&str>>,
    origin: Seq<char>,
    d: BrowserSession,
)
    ensures
        origin_values.len() == 1 && token_values.len() == 1 ==> (origin_values[0] matches Some(o)
            && o@ == origin ==> (token_values[0] matches Some(t) && t@ == d.csrf@ ==> csrf_proven(
            origin_values,
            token_values,
            origin,
            Some(d),
        ))),
        csrf_proven(origin_values, token_values, origin, Some(d)) == csrf_proven(
            origin_values,
            token_values,
            origin,
            Some(BrowserSession { user_id: None, ..d }),
        ),
        !csrf_proven(origin_values, token_values, origin, None),
        csrf_proven(origin_values, token_values, origin, Some(d)) ==> origin_values.len() == 1
            && token_values.len() == 1,
{
}

/// The session boundary's decision for one request: the actor of a live
/// signed-in session, or `Csrf` for an unsafe request without proof.
pub fn boundary_decision(
    method: &str,
    origin_values: &[Option<&str>],
    token_values: &[Option<&str>],
    origin: &str,
    data: &Option<BrowserSession>,
) -> (r: Result<Option<Actor>, ApiError>)
    ensures
        !safe_method(method@) && !csrf_proven(origin_values@, token_values@, origin@, *data) ==> (r matches Err(
            e,
        ) && e.0 == ErrorCode::Csrf),
        safe_method(method@) || csrf_proven(origin_values@, token_values@, origin@, *data) ==> (r matches Ok(
            a,
        ) && match data {
            Some(d) => match d.user_id {
                Some(u) => a matches Some(actor) && actor.spec_id() == u,
                None => a is None,
            },
            None => a is None,
        }),
{
    if !is_safe_method(method) {
        let token = single(token_values);
        let origin_ok = match single(origin_values) {
            Some(o) => text_eq(o, origin),
            None => false,
        };
        let token_ok = match (data, token) {
            (Some(d), Some(t)) => constant_time_eq(d.csrf.as_str(), t),
            _ => false,
        };
        if !(origin_ok && token_ok) {
            return Err(ApiError(ErrorCode::Csrf));
        }
    }
    match data {
        Some(d) => match d.user_id {
            Some(u) => Ok(Some(Actor::new(u))),
            None => Ok(None),
        },
        None => Ok(None),
    }
}

/// A new anonymous session: a fresh CSRF token, no user, ten minutes.
pub fn fresh_session(now: i64) -> (r: Result<BrowserSession, ApiError>)
    requires
        now + LOGIN_WINDOW_SECONDS <= i64::MAX,
    ensures
        r matches Ok(d) ==> d.user_id is None && d.expires_at == now + LOGIN_WINDOW_SECONDS && exists|
            bytes: Seq<u8>,
        | bytes.len() == 32 && d.csrf@ == hex(bytes),
        r matches Err(e) ==> e.0 == ErrorCode::Internal,
{
    let csrf = random()?;
    Ok(BrowserSession { csrf, user_id: None, expires_at: now + LOGIN_WINDOW_SECONDS })
}

/// What the session endpoint shows of a session.
pub fn session_info_reply(data: &BrowserSession) -> (r: SessionInfo)
    ensures
        r.csrf_token == data.csrf,
        match data.user_id {
            Some(u) => r.user_id matches Some(s) && s@ == signed_decimal(u as int),
            None => r.user_id is None,
        },
{
    let user_id = match data.user_id {
        Some(u) => Some(crate::text::decimal_string(u)),
        None => None,
    };
    SessionInfo { user_id, csrf_token: data.csrf.clone() }
}

/// The callback path under an origin.
pub fn callback_url(origin: &str) -> (r: String)
    ensures
        r@ == origin@ + "/api/auth/callback"@,
{
    let mut r = String::from_str(origin);
    r.append("/api/auth/callback");
    r
}

/// A login attempt may be completed for ten minutes.
pub fn attempt_expiry(now: i64) -> (r: i64)
    requires
        now + LOGIN_WINDOW_SECONDS <= i64::MAX,
    ensures
        r == now + LOGIN_WINDOW_SECONDS,
{
    now + LOGIN_WINDOW_SECONDS
}

/// A response that failed on the server without a body of its own is
/// replaced by the `Internal` problem.
pub fn needs_internal_body(status: u16, has_content_type: bool) -> (r: bool)
    ensures
        r == (500 <= status <= 599 && !has_content_type),
{
    500 <= status && status <= 599 && !has_content_type
}

/// The one-time secrets of a login attempt.
pub struct LoginAttempt {
    pub nonce: String,
    pub verifier: String,
}

/// What the provider exchange established: the ID token's subject, and when
/// the token carries an access-token hash, whether it matched.
pub struct VerifiedLogin {
    pub subject: String,
    pub access_token_hash_matches: Option<bool>,
}

/// Why the provider exchange gave no verified login.
pub enum ExchangeFailure {
    /// The client could not be set up.
    Internal,
    /// The exchange, the ID token or its claims were refused.
    Rejected,
}

/// What a verified ID token says: its subject, and its access-token hash
/// claim when it carries one.
pub struct IdTokenClaims {
    pub subject: String,
    pub access_token_hash: Option<String>,
}

/// What verifying an ID token at `now` gives, as `IdToken::claims` decides
/// it with a verifier built as `Client::id_token_verifier` builds one (public
/// without a client secret, confidential with one) from the provider's key
/// set and allowed signing algorithms (JSON), the issuer and the client id,
/// and with its clock fixed at `now`: the verified token's subject and
/// access-token hash claim, or `None` when the token does not parse or fails
/// any check (signature, issuer, audience, nonce, expiry).
pub uninterp spec fn id_token_verdict(
    id_token: Seq<char>,
    key_set: Seq<char>,
    allowed_algs: Seq<char>,
    issuer: Seq<char>,
    client_id: Seq<char>,
    client_secret: Option<Seq<char>>,
    nonce: Seq<char>,
    now: i64,
) -> Option<(Seq<char>, Option<Seq<char>>)>;

/// The text of an optional text.
pub open spec fn optional_text(text: Option<&str>) -> Option<Seq<char>> {
    match text {
        Some(t) => Some(t@),
        None => None,
    }
}

/// The claims a verification returned, by their views.
pub open spec fn claims_view(claims: Option<(String, Option<String>)>) -> Option<(Seq<char>, Option<Seq<char>>)> {
    match claims {
        Some((subject, hash)) => Some(
            (
                subject@,
                match hash {
                    Some(h) => Some(h@),
                    None => None,
                },
            ),
        ),
        None => None,
    }
}

/// Parses the ID token (`CoreIdToken::from_str`), the key set and the
/// allowed algorithms (JSON), builds a public-client verifier
/// (`IdTokenVerifier::new_public_client`) whose clock reads `now`
/// (`set_time_fn`), and calls `IdToken::claims` with the nonce. Trusted: the
/// result is the named verdict of its arguments, without a client secret.
#[verifier::external_body]
fn verify_public_client_token(id_token: &str, key_set: &str, allowed_algs: &str, issuer: String, client_id: String, nonce: String, now: i64) -> (r: Option<(String, Option<String>)>)
    ensures
        claims_view(r) == id_token_verdict(id_token@, key_set@, allowed_algs@, issuer@, client_id@, None, nonce@, now),
{
    let token: openidconnect::core::CoreIdToken = id_token.parse().ok()?;
    let keys = serde_json::from_str(key_set).ok()?;
    let time = chrono::DateTime::from_timestamp(now, 0)?;
    let verifier = openidconnect::core::CoreIdTokenVerifier::new_public_client(ClientId::new(client_id), IssuerUrl::new(issuer).ok()?, keys)
        .set_allowed_algs(serde_json::from_str::<Vec<_>>(allowed_algs).ok()?).set_time_fn(move || time);
    let claims = token.claims(&verifier, &Nonce::new(nonce)).ok()?;
    Some((claims.subject().to_string(), claims.access_token_hash().map(|h| h.to_string())))
}

/// As `verify_public_client_token`, with a confidential-client verifier
/// (`IdTokenVerifier::new_confidential_client`) holding the client secret,
/// which verifies tokens signed with it. Trusted: the result is the named
/// verdict of its arguments, with the secret.
#[verifier::external_body]
fn verify_confidential_client_token(id_token: &str, key_set: &str, allowed_algs: &str, issuer: String, client_id: String, client_secret: String, nonce: String, now: i64) -> (r: Option<(String, Option<String>)>)
    ensures
        claims_view(r) == id_token_verdict(id_token@, key_set@, allowed_algs@, issuer@, client_id@, Some(client_secret@), nonce@, now),
{
    let token: openidconnect::core::CoreIdToken = id_token.parse().ok()?;
    let keys = serde_json::from_str(key_set).ok()?;
    let time = chrono::DateTime::from_timestamp(now, 0)?;
    let verifier = openidconnect::core::CoreIdTokenVerifier::new_confidential_client(ClientId::new(client_id), ClientSecret::new(client_secret), IssuerUrl::new(issuer).ok()?, keys)
        .set_allowed_algs(serde_json::from_str::<Vec<_>>(allowed_algs).ok()?).set_time_fn(move || time);
    let claims = token.claims(&verifier, &Nonce::new(nonce)).ok()?;
    Some((claims.subject().to_string(), claims.access_token_hash().map(|h| h.to_string())))
}

/// The access-token hash (`at_hash`) that `AccessTokenHash::from_token`
/// computes for an access token with an ID token's signing algorithm and
/// key, the key found in the key set as the ID token verifier finds it.
pub uninterp spec fn access_token_digest(
    access_token: Seq<char>,
    id_token: Seq<char>,
    key_set: Seq<char>,
    issuer: Seq<char>,
    client_id: Seq<char>,
) -> Option<Seq<char>>;

/// Parses the ID token and the key set as `verify_public_client_token` does, then
/// calls `IdToken::signing_alg`, `IdToken::signing_key` (which looks the key
/// up in the key set by the token's key id and algorithm) and
/// `AccessTokenHash::from_token`. Trusted: the result is the named digest of
/// the arguments (no clock is read); `None` when any step fails.
#[verifier::external_body]
fn hash_access_token(access_token: &str, id_token: &str, key_set: &str, issuer: &str, client_id: &str) -> (r: Option<String>)
    ensures
        r matches Some(h) ==> access_token_digest(access_token@, id_token@, key_set@, issuer@, client_id@) == Some(h@),
        r is None ==> access_token_digest(access_token@, id_token@, key_set@, issuer@, client_id@) is None,
{
    let token: openidconnect::core::CoreIdToken = id_token.parse().ok()?;
    let keys = serde_json::from_str(key_set).ok()?;
    let url = IssuerUrl::new(issuer.to_string()).ok()?;
    let verifier = openidconnect::core::CoreIdTokenVerifier::new_public_client(ClientId::new(client_id.to_string()), url, keys);
    let access = AccessToken::new(access_token.to_string());
    let key = token.signing_key(&verifier).ok()?;
    let hash = AccessTokenHash::from_token(&access, token.signing_alg().ok()?, key).ok()?;
    Some(hash.to_string())
}

/// What the verified claims establish: no claims is a refused login; a
/// token without an access-token hash claim is accepted as is; one with the
/// claim needs the hash computed for the access token, and records whether
/// the two are the same text.
pub fn login_from_claims(claims: Option<IdTokenClaims>, computed_hash: Option<String>) -> (r: Result<VerifiedLogin, ExchangeFailure>)
    ensures
        claims is None ==> r == Err::<VerifiedLogin, ExchangeFailure>(ExchangeFailure::Rejected),
        claims matches Some(c) ==> match c.access_token_hash {
            None => r == Ok::<VerifiedLogin, ExchangeFailure>(
                VerifiedLogin { subject: c.subject, access_token_hash_matches: None },
            ),
            Some(h) => match computed_hash {
                None => r == Err::<VerifiedLogin, ExchangeFailure>(ExchangeFailure::Rejected),
                Some(a) => r == Ok::<VerifiedLogin, ExchangeFailure>(
                    VerifiedLogin { subject: c.subject, access_token_hash_matches: Some(a@ == h@) },
                ),
            },
        },
{
    match claims {
        None => Err(ExchangeFailure::Rejected),
        Some(c) => match c.access_token_hash {
            None => Ok(VerifiedLogin { subject: c.subject, access_token_hash_matches: None }),
            Some(h) => match computed_hash {
                None => Err(ExchangeFailure::Rejected),
                Some(a) => {
                    let same = text_eq(a.as_str(), h.as_str());
                    Ok(VerifiedLogin { subject: c.subject, access_token_hash_matches: Some(same) })
                },
            },
        },
    }
}

/// What a login established from a verification `verdict` and the
/// access-token `digest`: no verdict is a refused login; a token without an
/// access-token hash claim gives its subject; one with the claim needs the
/// digest, and records whether the two agree.
pub open spec fn login_follows(
    r: Result<VerifiedLogin, ExchangeFailure>,
    verdict: Option<(Seq<char>, Option<Seq<char>>)>,
    digest: Option<Seq<char>>,
) -> bool {
    match verdict {
        None => r == Err::<VerifiedLogin, ExchangeFailure>(ExchangeFailure::Rejected),
        Some((subject, None)) => r matches Ok(v) && v.subject@ == subject
            && v.access_token_hash_matches is None,
        Some((subject, Some(claimed))) => match digest {
            None => r == Err::<VerifiedLogin, ExchangeFailure>(ExchangeFailure::Rejected),
            Some(computed) => r matches Ok(v) && v.subject@ == subject
                && v.access_token_hash_matches == Some(computed == claimed),
        },
    }
}

/// Verifies the ID token of a token response at `now` against the
/// provider's key set and allowed algorithms, the issuer, this client and
/// the attempt's nonce, and checks the access token against the token's hash
/// claim. A response without an ID token is a refused login.
pub fn exchanged(
    id_token: Option<String>,
    access_token: &str,
    key_set: &str,
    allowed_algs: &str,
    issuer: &str,
    client_id: &str,
    client_secret: Option<&str>,
    nonce: &str,
    now: i64,
) -> (r: Result<VerifiedLogin, ExchangeFailure>)
    ensures
        id_token is None ==> r == Err::<VerifiedLogin, ExchangeFailure>(ExchangeFailure::Rejected),
        id_token matches Some(t) ==> login_follows(
            r,
            id_token_verdict(
                t@,
                key_set@,
                allowed_algs@,
                issuer@,
                client_id@,
                optional_text(client_secret),
                nonce@,
                now,
            ),
            access_token_digest(access_token@, t@, key_set@, issuer@, client_id@),
        ),
{
    let token = match id_token {
        Some(t) => t,
        None => {
            return Err(ExchangeFailure::Rejected);
        },
    };
    let verified = match client_secret {
        Some(secret) => verify_confidential_client_token(
            token.as_str(),
            key_set,
            allowed_algs,
            String::from_str(issuer),
            String::from_str(client_id),
            String::from_str(secret),
            String::from_str(nonce),
            now,
        ),
        None => verify_public_client_token(
            token.as_str(),
            key_set,
            allowed_algs,
            String::from_str(issuer),
            String::from_str(client_id),
            String::from_str(nonce),
            now,
        ),
    };
    let claims = match verified {
        Some((subject, access_token_hash)) => Some(IdTokenClaims { subject, access_token_hash }),
        None => None,
    };
    let claims_hash = match &claims {
        Some(c) => c.access_token_hash.is_some(),
        None => false,
    };
    let computed = if claims_hash {
        hash_access_token(access_token, token.as_str(), key_set, issuer, client_id)
    } else {
        None
    };
    login_from_claims(claims, computed)
}

/// The next step of the login callback, or how it ends.
pub enum CallbackAction {
    /// `DELETE FROM iris_login_attempts WHERE state=? AND browser_id=? AND
    /// expires_at>?now RETURNING nonce,verifier` (see `consume_attempt`),
    /// committed before any exchange so that a replay cannot exchange.
    ConsumeAttempt { state: String, browser_id: String, now: i64 },
    /// Exchange the code with the attempt's PKCE verifier and verify the ID
    /// token against its nonce.
    Exchange { code: String, attempt: LoginAttempt },
    /// `SELECT user_id FROM iris_external_identities WHERE issuer=? AND
    /// subject=?`
    MapIdentity { subject: String },
    /// `DELETE FROM iris_sessions WHERE id=? AND expires_at>?now RETURNING
    /// id`: the live browser session is promoted only if it still exists.
    Promote { browser_id: String, user_id: i64, now: i64 },
    /// Clear the session, give it a new id, store this data, redirect to `/`.
    Establish(BrowserSession),
    Fail(ApiError),
}

/// What the callback does first: the query must parse and the browser have
/// a session; then the attempt is consumed.
pub open spec fn after_start(query: Option<Callback>, browser_id: Option<String>, now: i64, r: CallbackAction) -> bool {
    if query is None || browser_id is None {
        r matches CallbackAction::Fail(e) && e.0 == ErrorCode::LoginFailed
    } else {
        r == (CallbackAction::ConsumeAttempt { state: query->0.state, browser_id: browser_id->0, now })
    }
}

/// The first step (see `after_start`).
pub fn callback_start(query: &Option<Callback>, browser_id: Option<String>, now: i64) -> (r: CallbackAction)
    ensures
        after_start(*query, browser_id, now, r),
{
    let q = match query {
        Some(q) => q,
        None => {
            return CallbackAction::Fail(ApiError(ErrorCode::LoginFailed));
        },
    };
    match browser_id {
        Some(id) => CallbackAction::ConsumeAttempt { state: q.state.clone(), browser_id: id, now },
        None => CallbackAction::Fail(ApiError(ErrorCode::LoginFailed)),
    }
}

/// What follows consuming the attempt: exchange only a live attempt of this
/// browser, and only with a code.
pub open spec fn after_consume(query: Callback, found: Result<Option<LoginAttempt>, DbError>, r: CallbackAction) -> bool {
    match found {
        Err(_) => r matches CallbackAction::Fail(e) && e.0 == ErrorCode::Internal,
        Ok(None) => r matches CallbackAction::Fail(e) && e.0 == ErrorCode::LoginFailed,
        Ok(Some(attempt)) => match query.code {
            None => r matches CallbackAction::Fail(e) && e.0 == ErrorCode::LoginFailed,
            Some(code) => r == (CallbackAction::Exchange { code, attempt }),
        },
    }
}

/// After consuming the attempt (see `after_consume`).
pub fn callback_consumed(query: &Callback, found: Result<Option<LoginAttempt>, DbError>) -> (r: CallbackAction)
    ensures
        after_consume(*query, found, r),
{
    match found {
        Err(e) => CallbackAction::Fail(internal(e)),
        Ok(None) => CallbackAction::Fail(ApiError(ErrorCode::LoginFailed)),
        Ok(Some(attempt)) => match &query.code {
            Some(code) => CallbackAction::Exchange { code: code.clone(), attempt },
            None => CallbackAction::Fail(ApiError(ErrorCode::LoginFailed)),
        },
    }
}

/// What follows the exchange: a refused exchange fails; a mismatched
/// access-token hash is refused; otherwise the subject is looked up.
pub open spec fn after_exchange(result: Result<VerifiedLogin, ExchangeFailure>, r: CallbackAction) -> bool {
    match result {
        Err(ExchangeFailure::Internal) => r matches CallbackAction::Fail(e) && e.0 == ErrorCode::Internal,
        Err(ExchangeFailure::Rejected) => r matches CallbackAction::Fail(e) && e.0
            == ErrorCode::LoginFailed,
        Ok(v) => if v.access_token_hash_matches == Some(false) {
            r matches CallbackAction::Fail(e) && e.0 == ErrorCode::LoginFailed
        } else {
            r == (CallbackAction::MapIdentity { subject: v.subject })
        },
    }
}

/// After the exchange (see `after_exchange`).
pub fn callback_verified(result: Result<VerifiedLogin, ExchangeFailure>) -> (r: CallbackAction)
    ensures
        after_exchange(result, r),
{
    match result {
        Err(ExchangeFailure::Internal) => CallbackAction::Fail(ApiError(ErrorCode::Internal)),
        Err(ExchangeFailure::Rejected) => CallbackAction::Fail(ApiError(ErrorCode::LoginFailed)),
        Ok(v) => match v.access_token_hash_matches {
            Some(false) => CallbackAction::Fail(ApiError(ErrorCode::LoginFailed)),
            _ => CallbackAction::MapIdentity { subject: v.subject },
        },
    }
}

/// What follows the identity lookup: only mapped identities sign in.
pub open spec fn after_identity(result: Result<Option<i64>, DbError>, browser_id: String, now: i64, r: CallbackAction) -> bool {
    match result {
        Err(_) => r matches CallbackAction::Fail(e) && e.0 == ErrorCode::Internal,
        Ok(None) => r matches CallbackAction::Fail(e) && e.0 == ErrorCode::LoginFailed,
        Ok(Some(u)) => r == (CallbackAction::Promote { browser_id, user_id: u, now }),
    }
}

/// After the identity lookup (see `after_identity`).
pub fn callback_identity(result: Result<Option<i64>, DbError>, browser_id: String, now: i64) -> (r: CallbackAction)
    ensures
        after_identity(result, browser_id, now, r),
{
    match result {
        Err(e) => CallbackAction::Fail(internal(e)),
        Ok(None) => CallbackAction::Fail(ApiError(ErrorCode::LoginFailed)),
        Ok(Some(user_id)) => CallbackAction::Promote { browser_id, user_id, now },
    }
}

/// What follows the promotion: a session that logged out (or expired)
/// meanwhile is not resurrected; otherwise the user is signed in for eight
/// hours with a fresh CSRF token, unless no token can be drawn.
pub open spec fn after_promotion(result: Result<bool, DbError>, user_id: i64, now: i64, r: CallbackAction) -> bool {
    match result {
        Err(_) => r matches CallbackAction::Fail(e) && e.0 == ErrorCode::Internal,
        Ok(false) => r matches CallbackAction::Fail(e) && e.0 == ErrorCode::LoginFailed,
        Ok(true) => (r matches CallbackAction::Fail(e) && e.0 == ErrorCode::Internal) || (
        r matches CallbackAction::Establish(d) && d.user_id == Some(user_id) && d.expires_at == now
            + SESSION_SECONDS && exists|bytes: Seq<u8>| bytes.len() == 32 && d.csrf@ == hex(bytes)),
    }
}

/// After the promotion (see `after_promotion`).
pub fn callback_promoted(result: Result<bool, DbError>, user_id: i64, now: i64) -> (r: CallbackAction)
    requires
        now + SESSION_SECONDS <= i64::MAX,
    ensures
        after_promotion(result, user_id, now, r),
{
    match result {
        Err(e) => CallbackAction::Fail(internal(e)),
        Ok(false) => CallbackAction::Fail(ApiError(ErrorCode::LoginFailed)),
        Ok(true) => match random() {
            Ok(csrf) => CallbackAction::Establish(
                BrowserSession { csrf, user_id: Some(user_id), expires_at: now + SESSION_SECONDS },
            ),
            Err(e) => CallbackAction::Fail(e),
        },
    }
}

/// A row of `iris_login_attempts`, keyed elsewhere by its state.
pub struct StoredAttempt {
    pub browser_id: Seq<char>,
    pub nonce: Seq<char>,
    pub verifier: Seq<char>,
    pub expires_at: i64,
}

/// The consuming delete that `ConsumeAttempt` names, on the attempts keyed
/// by state: the live attempt of this browser is removed and returned;
/// anything else leaves the table as it was and returns nothing.
pub open spec fn consume_attempt(
    attempts: Map<Seq<char>, StoredAttempt>,
    state: Seq<char>,
    browser_id: Seq<char>,
    now: i64,
) -> (Map<Seq<char>, StoredAttempt>, Option<StoredAttempt>) {
    if attempts.dom().contains(state) && attempts[state].browser_id == browser_id
        && attempts[state].expires_at > now {
        (attempts.remove(state), Some(attempts[state]))
    } else {
        (attempts, None)
    }
}

/// A login attempt is used at most once, and only by its own browser: once
/// a callback has consumed it, any later callback with the same state finds
/// nothing (so it never reaches the exchange); a callback from another
/// browser finds nothing and leaves the attempt for its own browser.
pub proof fn law_attempts_are_consumed_once(
    attempts: Map<Seq<char>, StoredAttempt>,
    state: Seq<char>,
    browser_id: Seq<char>,
    now: i64,
    other_browser: Seq<char>,
    later: i64,
)
    ensures
        consume_attempt(attempts, state, browser_id, now).1 is Some ==> consume_attempt(
            consume_attempt(attempts, state, browser_id, now).0,
            state,
            other_browser,
            later,
        ).1 is None,
        attempts.dom().contains(state) && attempts[state].browser_id != other_browser
            ==> consume_attempt(attempts, state, other_browser, later) == (attempts, None::<StoredAttempt>),
{
}

/// A browser is signed in only by a completed login: the callback steps
/// reach the exchange only with an attempt that this browser's callback has
/// consumed, and establish a session for a user only when the exchange was
/// verified, the provider's identity maps to that user, and the browser's
/// session was still live at promotion; a session that logged out meanwhile
/// makes the login fail instead.
pub proof fn law_sessions_come_from_completed_logins(
    query: Option<Callback>,
    browser_id: Option<String>,
    now: i64,
    found: Result<Option<LoginAttempt>, DbError>,
    exchanged: Result<VerifiedLogin, ExchangeFailure>,
    identity: Result<Option<i64>, DbError>,
    promoted: Result<bool, DbError>,
    started: CallbackAction,
    consumed: CallbackAction,
    verified: CallbackAction,
    mapped: CallbackAction,
    promotion: CallbackAction,
)
    requires
        after_start(query, browser_id, now, started),
        started is ConsumeAttempt ==> after_consume(query->0, found, consumed),
        started is ConsumeAttempt && consumed is Exchange ==> after_exchange(exchanged, verified),
        started is ConsumeAttempt && consumed is Exchange && verified is MapIdentity
            ==> after_identity(identity, browser_id->0, now, mapped),
        started is ConsumeAttempt && consumed is Exchange && verified is MapIdentity
            && mapped is Promote ==> after_promotion(promoted, mapped->user_id, now, promotion),
    ensures
        started is ConsumeAttempt && consumed is Exchange ==> (found matches Ok(Some(attempt))
            && consumed->attempt == attempt && query->0.code == Some(consumed->code)),
        started is ConsumeAttempt && consumed is Exchange && verified is MapIdentity && mapped is Promote
            && promotion is Establish ==> {
            &&& query is Some && browser_id is Some
            &&& exchanged matches Ok(v) && v.access_token_hash_matches != Some(false)
            &&& identity matches Ok(Some(u)) && promotion->Establish_0.user_id == Some(u)
            &&& mapped->Promote_browser_id == browser_id->0
            &&& promoted == Ok::<bool, DbError>(true)
            &&& promotion->Establish_0.expires_at == now + SESSION_SECONDS
        },
        started is ConsumeAttempt && consumed is Exchange && verified is MapIdentity && mapped is Promote
            && promoted == Ok::<bool, DbError>(false) ==> (promotion matches CallbackAction::Fail(e)
            && e.0 == ErrorCode::LoginFailed),
{
}

/// The scheme, host and ASCII-serialized origin of a URL, as the `url` crate
/// parses it; `None` when it does not parse.
pub uninterp spec fn url_parts(text: Seq<char>) -> Option<(Seq<char>, Option<Seq<char>>, Seq<char>)>;

/// The parts of a parsed URL that the origin policy reads.
pub struct UrlParts {
    pub scheme: String,
    pub host: Option<String>,
    pub origin: String,
}

/// Calls `url::Url::parse` (re-exported by `openidconnect`), then its
/// `scheme`, `host_str` and `origin().ascii_serialization()`. Trusted: the
/// parts are the named result of parsing the text.
#[verifier::external_body]
fn parse_url(text: &str) -> (r: Option<UrlParts>)
    ensures
        match r {
            Some(p) => url_parts(text@) == Some(
                (
                    p.scheme@,
                    match p.host {
                        Some(h) => Some(h@),
                        None => None,
                    },
                    p.origin@,
                ),
            ),
            None => url_parts(text@) is None,
        },
{
    match openidconnect::url::Url::parse(text) {
        Ok(url) => Some(
            UrlParts {
                scheme: url.scheme().to_string(),
                host: match url.host_str() {
                    Some(h) => Some(h.to_string()),
                    None => None,
                },
                origin: url.origin().ascii_serialization(),
            },
        ),
        Err(_) => None,
    }
}

pub open spec fn https() -> Seq<char> {
    seq!['h', 't', 't', 'p', 's']
}

pub open spec fn http() -> Seq<char> {
    seq!['h', 't', 't', 'p']
}

/// `127.0.0.1` or `localhost`.
pub open spec fn loopback(host: Option<Seq<char>>) -> bool {
    host == Some(loopback_address()) || host == Some(
        seq!['l', 'o', 'c', 'a', 'l', 'h', 'o', 's', 't'],
    )
}

/// A URL that uses HTTPS, or plain HTTP on the loopback interface.
pub open spec fn transport_allowed(scheme: Seq<char>, host: Option<Seq<char>>) -> bool {
    scheme == https() || (scheme == http() && loopback(host))
}

/// The URL parses with the `https` scheme.
pub open spec fn uses_https(text: Seq<char>) -> bool {
    match url_parts(text) {
        Some((scheme, _, _)) => scheme == https(),
        None => false,
    }
}

/// A public origin is accepted when it is written exactly as its canonical
/// serialization and its transport is allowed.
pub open spec fn origin_allowed(origin: Seq<char>) -> bool {
    match url_parts(origin) {
        Some((scheme, host, serialized)) => serialized == origin && transport_allowed(scheme, host),
        None => false,
    }
}

/// An issuer is accepted when its transport is allowed.
pub open spec fn issuer_allowed(issuer: Seq<char>) -> bool {
    match url_parts(issuer) {
        Some((scheme, host, _)) => transport_allowed(scheme, host),
        None => false,
    }
}

/// Issuers follow the same transport rule as public origins: HTTPS, or plain
/// HTTP on `127.0.0.1` or `localhost`; a canonical URL is accepted as an
/// issuer exactly when it is accepted as an origin.
pub proof fn law_issuers_follow_the_origin_transport_rule(url: Seq<char>)
    ensures
        url_parts(url) matches Some((scheme, host, _)) ==> (issuer_allowed(url) <==> (scheme
            == seq!['h', 't', 't', 'p', 's'] || (scheme == seq!['h', 't', 't', 'p'] && (host
            == Some(seq!['1', '2', '7', '.', '0', '.', '0', '.', '1']) || host == Some(
            seq!['l', 'o', 'c', 'a', 'l', 'h', 'o', 's', 't'],
        ))))),
        url_parts(url) matches Some((_, _, serialized)) && serialized == url ==> (issuer_allowed(url)
            <==> origin_allowed(url)),
        url_parts(url) is None ==> !issuer_allowed(url) && !origin_allowed(url),
{
}

/// Why a configuration is refused.
#[derive(Debug, PartialEq, Eq)]
pub enum ConfigError {
    /// The text is not a URL.
    InvalidUrl,
    /// Origin must be a canonical HTTPS origin or explicit HTTP loopback origin.
    Origin,
    /// Issuer must use HTTPS or explicit HTTP loopback.
    Issuer,
}

fn allowed_transport(parts: &UrlParts) -> (r: bool)
    ensures
        r == transport_allowed(
            parts.scheme@,
            match parts.host {
                Some(h) => Some(h@),
                None => None,
            },
        ),
{
    proof {
        reveal_strlit("https");
        reveal_strlit("http");
        reveal_strlit("localhost");
        assert("https"@ =~= https());
        assert("http"@ =~= http());
        assert("localhost"@ =~= seq!['l', 'o', 'c', 'a', 'l', 'h', 'o', 's', 't']);
    }
    let scheme = parts.scheme.as_str();
    if text_eq(scheme, "https") {
        return true;
    }
    if !text_eq(scheme, "http") {
        return false;
    }
    match &parts.host {
        Some(h) => is_loopback_address(h.as_str()) || text_eq(h.as_str(), "localhost"),
        None => false,
    }
}

/// The IPv4 loopback address, character by character.
pub open spec fn loopback_address() -> Seq<char> {
    seq!['1', '2', '7', '.', '0', '.', '0', '.', '1']
}

fn is_loopback_address(host: &str) -> (r: bool)
    ensures
        r == (host@ == loopback_address()),
{
    let expected: [char; 9] = ['1', '2', '7', '.', '0', '.', '0', '.', '1'];
    assert(expected@ =~= loopback_address());
    let len = host.unicode_len();
    if len != 9 {
        return false;
    }
    let mut i: usize = 0;
    while i < 9
        invariant
            i <= 9,
            len == 9,
            host@.len() == 9,
            expected@ == loopback_address(),
            forall|j: int| 0 <= j < i ==> host@[j] == loopback_address()[j],
        decreases 9 - i,
    {
        if host.get_char(i) != expected[i] {
            return false;
        }
        i = i + 1;
    }
    assert(host@ =~= loopback_address());
    true
}

/// Checks a public origin; `Ok(secure)` tells whether it uses HTTPS, which
/// decides the session cookie's name and `Secure` flag.
pub fn check_origin(origin: &str) -> (r: Result<bool, ConfigError>)
    ensures
        url_parts(origin@) is None ==> r == Err::<bool, ConfigError>(ConfigError::InvalidUrl),
        url_parts(origin@) is Some && !origin_allowed(origin@) ==> r == Err::<bool, ConfigError>(
            ConfigError::Origin,
        ),
        origin_allowed(origin@) ==> r == Ok::<bool, ConfigError>(uses_https(origin@)),
{
    let parts = match parse_url(origin) {
        Some(p) => p,
        None => {
            return Err(ConfigError::InvalidUrl);
        },
    };
    if !text_eq(parts.origin.as_str(), origin) || !allowed_transport(&parts) {
        return Err(ConfigError::Origin);
    }
    proof {
        reveal_strlit("https");
        assert("https"@ =~= https());
    }
    Ok(text_eq(parts.scheme.as_str(), "https"))
}

/// Checks an issuer URL.
pub fn check_issuer(issuer: &str) -> (r: Result<(), ConfigError>)
    ensures
        url_parts(issuer@) is None ==> r == Err::<(), ConfigError>(ConfigError::InvalidUrl),
        url_parts(issuer@) is Some && !issuer_allowed(issuer@) ==> r == Err::<(), ConfigError>(
            ConfigError::Issuer,
        ),
        issuer_allowed(issuer@) ==> r is Ok,
{
    let parts = match parse_url(issuer) {
        Some(p) => p,
        None => {
            return Err(ConfigError::InvalidUrl);
        },
    };
    if !allowed_transport(&parts) {
        return Err(ConfigError::Issuer);
    }
    Ok(())
}

/// The session cookie: `__Host-iris-session` on HTTPS (with `Secure`), and
/// `iris-session-dev` on the explicit HTTP loopback origin.
pub fn session_cookie_name(secure: bool) -> (r: &'static str)
    ensures
        secure ==> r == "__Host-iris-session",
        !secure ==> r == "iris-session-dev",
{
    if secure {
        "__Host-iris-session"
    } else {
        "iris-session-dev"
    }
}

/// A browser without a session id cannot start a login.
pub fn login_browser(session_id: Option<String>) -> (r: Result<String, ApiError>)
    ensures
        session_id is None ==> (r matches Err(e) && e.0 == ErrorCode::Csrf),
        session_id is Some ==> r == Ok::<String, ApiError>(session_id->0),
{
    match session_id {
        Some(id) => Ok(id),
        None => Err(ApiError(ErrorCode::Csrf)),
    }
}

} // verus!
