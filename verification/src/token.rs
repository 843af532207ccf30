//! The credential lifecycle: deciding when the stored access token is still
//! usable, which grant to attempt otherwise, and how a grant response
//! updates the credential store.
//!
//! The locking itself (a reader/writer lock around [`WacraftConfig`]) is the
//! runtime's affair; the functions here are the decisions taken under the
//! read lock and under the write lock, and the proof that a re-check under
//! the write lock after a completed refresh issues no second refresh.

use vstd::prelude::*;

use crate::models::TokenRequest;
use crate::models::TokenResponse;
use crate::models::WacraftConfig;

verus! {

/// Freshness margin in seconds: a token this close to expiry is treated as
/// expired, absorbing clock skew and in-flight request latency.
pub open spec fn spec_freshness_margin() -> int {
    60
}

/// True exactly when the store holds a token that is still fresh at `now`:
/// present, with an expiry more than the margin in the future.
pub open spec fn spec_token_fresh(c: WacraftConfig, now: int) -> bool {
    &&& c.access_token is Some
    &&& c.token_expires_at is Some
    &&& c.token_expires_at->0 > now + spec_freshness_margin()
}

/// The freshness check performed under the read lock and repeated under the
/// write lock.
pub fn token_is_fresh(c: &WacraftConfig, now: i64) -> (b: bool)
    ensures
        b == spec_token_fresh(*c, now as int),
{
    match (&c.access_token, &c.token_expires_at) {
        (Some(_), Some(exp)) => (*exp as i128) > (now as i128) + 60,
        _ => false,
    }
}

/// What the holder of the write lock must do to obtain a valid token.
#[derive(Debug)]
pub enum TokenPlan {
    /// The stored token is still fresh (someone else refreshed meanwhile):
    /// return it without any network call.
    UseExisting(String),
    /// Attempt a refresh-token grant with this refresh token; on any
    /// failure fall back to a password grant.
    Refresh(String),
    /// No refresh token is stored: go straight to a password grant.
    PasswordGrant,
}

/// The decision taken under the write lock: re-check freshness, then pick
/// the grant to attempt.
pub fn token_plan(c: &WacraftConfig, now: i64) -> (p: TokenPlan)
    ensures
        spec_token_fresh(*c, now as int) ==> (p matches TokenPlan::UseExisting(t) && t
            == c.access_token->0),
        !spec_token_fresh(*c, now as int) && c.refresh_token is Some ==> (p
            matches TokenPlan::Refresh(rt) && rt == c.refresh_token->0),
        !spec_token_fresh(*c, now as int) && c.refresh_token is None ==> p
            == TokenPlan::PasswordGrant,
{
    if token_is_fresh(c, now) {
        match &c.access_token {
            Some(t) => TokenPlan::UseExisting(t.clone()),
            None => unreached(),  // freshness implies a stored token
        }
    } else {
        match &c.refresh_token {
            Some(rt) => TokenPlan::Refresh(rt.clone()),
            None => TokenPlan::PasswordGrant,
        }
    }
}

/// The body of a refresh-token grant.
pub fn refresh_request(refresh_token: &str) -> (r: TokenRequest)
    ensures
        r.grant_type@ == "refresh_token"@,
        r.username is None,
        r.password is None,
        r.refresh_token matches Some(t) && t@ == refresh_token@,
{
    TokenRequest {
        grant_type: "refresh_token".to_owned(),
        username: None,
        password: None,
        refresh_token: Some(refresh_token.to_owned()),
    }
}

/// The body of a password grant built from the stored principal credentials.
pub fn password_request(c: &WacraftConfig) -> (r: TokenRequest)
    ensures
        r.grant_type@ == "password"@,
        r.username matches Some(u) && u@ == c.email@,
        r.password matches Some(p) && p@ == c.password@,
        r.refresh_token is None,
{
    TokenRequest {
        grant_type: "password".to_owned(),
        username: Some(c.email.as_str().to_owned()),
        password: Some(c.password.as_str().to_owned()),
        refresh_token: None,
    }
}

/// Applies a successful grant response to the credential store: both tokens
/// are overwritten and the expiry becomes `now + expires_in`. Nothing else
/// changes, and the credential invariant holds afterwards.
pub fn apply_token_response(c: &mut WacraftConfig, resp: &TokenResponse, now: i64)
    requires
        i64::MIN <= now + resp.expires_in <= i64::MAX,
    ensures
        final(c).access_token == Some(resp.access_token),
        final(c).refresh_token == Some(resp.refresh_token),
        final(c).token_expires_at is Some,
        final(c).token_expires_at->0 == now + resp.expires_in,
        final(c).base_url == old(c).base_url,
        final(c).email == old(c).email,
        final(c).password == old(c).password,
        final(c).wf(),
{
    c.access_token = Some(resp.access_token.clone());
    c.refresh_token = Some(resp.refresh_token.clone());
    c.token_expires_at = Some(now + resp.expires_in);
}

/// The heart of the double-checked refresh: once one writer has applied a
/// grant response at `t_refresh`, every later caller that re-checks the
/// store at a time `t_check` within the token's safe window finds it fresh,
/// and [`token_plan`] therefore hands back the refresher's token string
/// without issuing any further grant request. At most one refresh round
/// trip happens per expiry event, and all racing callers observe the same
/// token.
pub proof fn lemma_refresh_then_recheck(
    c: WacraftConfig,
    resp: TokenResponse,
    t_refresh: int,
    t_check: int,
)
    requires
        c.access_token == Some(resp.access_token),
        c.token_expires_at is Some,
        c.token_expires_at->0 == t_refresh + resp.expires_in,
        t_refresh <= t_check,
        t_check + spec_freshness_margin() < t_refresh + resp.expires_in,
    ensures
        spec_token_fresh(c, t_check),
        c.access_token->0 == resp.access_token,
{
}

/// The racing-callers form: however many callers re-check the store after
/// the one refresh, at whatever times within the token's safe window, every
/// one of them finds it fresh and is handed the refresher's token — zero
/// further refreshes, one token string for all.
pub proof fn lemma_racers_observe_one_refresh(
    c: WacraftConfig,
    resp: TokenResponse,
    t_refresh: int,
    checks: Seq<int>,
)
    requires
        c.access_token == Some(resp.access_token),
        c.token_expires_at is Some,
        c.token_expires_at->0 == t_refresh + resp.expires_in,
        forall|i: int|
            0 <= i < checks.len() ==> t_refresh <= #[trigger] checks[i] && checks[i]
                + spec_freshness_margin() < t_refresh + resp.expires_in,
    ensures
        forall|i: int|
            0 <= i < checks.len() ==> spec_token_fresh(c, #[trigger] checks[i]),
        c.access_token->0 == resp.access_token,
{
    assert forall|i: int| 0 <= i < checks.len() implies spec_token_fresh(c, #[trigger] checks[i]) by {
        lemma_refresh_then_recheck(c, resp, t_refresh, checks[i]);
    }
}

} // verus!
