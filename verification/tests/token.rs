use wacraft_reminders::models::TokenResponse;
use wacraft_reminders::models::WacraftConfig;
use wacraft_reminders::token::apply_token_response;
use wacraft_reminders::token::password_request;
use wacraft_reminders::token::refresh_request;
use wacraft_reminders::token::token_is_fresh;
use wacraft_reminders::token::token_plan;
use wacraft_reminders::token::TokenPlan;

fn config(access: Option<&str>, refresh: Option<&str>, expires_at: Option<i64>) -> WacraftConfig {
    WacraftConfig {
        base_url: "https://api.example.test".to_string(),
        email: "user@example.com".to_string(),
        password: "pw".to_string(),
        access_token: access.map(|s| s.to_string()),
        refresh_token: refresh.map(|s| s.to_string()),
        token_expires_at: expires_at,
    }
}

#[test]
fn token_expiring_in_thirty_seconds_triggers_refresh() {
    let now = 1_000_000;
    let c = config(Some("tok"), Some("ref"), Some(now + 30));
    assert!(!token_is_fresh(&c, now));
    match token_plan(&c, now) {
        TokenPlan::Refresh(rt) => assert_eq!(rt, "ref"),
        other => panic!("expected a refresh attempt, got {:?}", other),
    }
}

#[test]
fn token_beyond_margin_is_used_as_is() {
    let now = 1_000_000;
    let c = config(Some("tok"), Some("ref"), Some(now + 61));
    assert!(token_is_fresh(&c, now));
    match token_plan(&c, now) {
        TokenPlan::UseExisting(t) => assert_eq!(t, "tok"),
        other => panic!("expected the stored token, got {:?}", other),
    }
}

#[test]
fn token_at_exact_margin_is_stale() {
    let now = 1_000_000;
    let c = config(Some("tok"), None, Some(now + 60));
    assert!(!token_is_fresh(&c, now));
    assert!(matches!(token_plan(&c, now), TokenPlan::PasswordGrant));
}

#[test]
fn missing_token_means_password_grant_without_refresh_token() {
    let c = config(None, None, None);
    assert!(!token_is_fresh(&c, 0));
    assert!(matches!(token_plan(&c, 0), TokenPlan::PasswordGrant));
}

#[test]
fn missing_expiry_is_not_fresh() {
    let c = config(Some("tok"), None, None);
    assert!(!token_is_fresh(&c, 0));
}

#[test]
fn grant_response_overwrites_the_store() {
    let mut c = config(Some("old"), Some("old-ref"), Some(10));
    let resp = TokenResponse {
        access_token: "new".to_string(),
        refresh_token: "new-ref".to_string(),
        expires_in: 3600,
        token_type: "bearer".to_string(),
    };
    let now = 1_000_000;
    apply_token_response(&mut c, &resp, now);
    assert_eq!(c.access_token.as_deref(), Some("new"));
    assert_eq!(c.refresh_token.as_deref(), Some("new-ref"));
    assert_eq!(c.token_expires_at, Some(now + 3600));
    assert_eq!(c.base_url, "https://api.example.test");
    assert_eq!(c.email, "user@example.com");
    assert_eq!(c.password, "pw");
}

#[test]
fn recheck_after_refresh_needs_no_second_grant() {
    let mut c = config(None, None, None);
    let resp = TokenResponse {
        access_token: "fresh".to_string(),
        refresh_token: "fresh-ref".to_string(),
        expires_in: 3600,
        token_type: "bearer".to_string(),
    };
    let t_refresh = 1_000_000;
    apply_token_response(&mut c, &resp, t_refresh);
    // A second caller re-checking shortly after the refresh observes the
    // same token and issues no further grant request.
    let t_check = t_refresh + 5;
    assert!(token_is_fresh(&c, t_check));
    match token_plan(&c, t_check) {
        TokenPlan::UseExisting(t) => assert_eq!(t, "fresh"),
        other => panic!("expected the refreshed token, got {:?}", other),
    }
}

#[test]
fn grant_request_bodies_carry_the_right_fields() {
    let r = refresh_request("the-refresh-token");
    assert_eq!(r.grant_type, "refresh_token");
    assert_eq!(r.username, None);
    assert_eq!(r.password, None);
    assert_eq!(r.refresh_token.as_deref(), Some("the-refresh-token"));

    let c = config(None, None, None);
    let p = password_request(&c);
    assert_eq!(p.grant_type, "password");
    assert_eq!(p.username.as_deref(), Some("user@example.com"));
    assert_eq!(p.password.as_deref(), Some("pw"));
    assert_eq!(p.refresh_token, None);
}
