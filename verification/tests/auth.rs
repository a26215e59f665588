use twitch_opendeck::auth::{
    apply_refreshed_token, apply_refreshed_token_now, plan_token_use_now, settings_with_token_now, cleared_tokens, device_flow_form, device_token_form, plan_token_use, refresh_form,
    checked_token_expiry, refusal, refusal_outcome, settings_with_token, token_expiry, validation_authorization,
    AuthError, AuthRequest, DevicePoll, PollOutcome, PollWait, TimeError, TokenPlan, TokenResponse, ValidateResponse,
    DEVICE_GRANT, SCOPES,
};
use twitch_opendeck::settings::GlobalSettings;

fn logged_in() -> GlobalSettings {
    GlobalSettings {
        client_id: "cid".to_string(),
        client_secret: "secret".to_string(),
        access_token: Some("old-access".to_string()),
        refresh_token: Some("old-refresh".to_string()),
        token_expires_at: Some(10_000),
        user_id: Some("42".to_string()),
        username: Some("streamer".to_string()),
    }
}

fn token(access: &str, refresh: Option<&str>, expires_in: Option<i64>) -> TokenResponse {
    TokenResponse {
        access_token: access.to_string(),
        refresh_token: refresh.map(|r| r.to_string()),
        expires_in,
        scope: None,
        token_type: Some("bearer".to_string()),
    }
}

fn api_message(e: &AuthError) -> Option<&str> {
    match e {
        AuthError::Api(m) => Some(m.as_str()),
        _ => None,
    }
}

fn fail_message(o: &PollOutcome) -> Option<&str> {
    match o {
        PollOutcome::Fail(e) => api_message(e),
        _ => None,
    }
}

fn poll() -> DevicePoll {
    DevicePoll::new(5, 600, 1_000)
}

#[test]
fn poll_pending_keeps_polling() {
    assert!(matches!(poll().after_refusal(r#"{"status":400,"message":"authorization_pending"}"#), PollOutcome::KeepPolling));
    assert!(matches!(poll().after_refusal(r#"{"error":"authorization_pending"}"#), PollOutcome::KeepPolling));
}

#[test]
fn poll_slow_down_widens_the_interval() {
    let mut p = poll();
    assert!(matches!(p.after_refusal(r#"{"message":"slow_down"}"#), PollOutcome::SlowDown));
    p.slow_down();
    assert_eq!(p.interval, 10);
    assert_eq!(p.expires_in, 600);
    assert_eq!(p.start_time, 1_000);
}

#[test]
fn poll_expired_codes_end_the_flow() {
    assert!(matches!(poll().after_refusal(r#"{"message":"expired_token"}"#), PollOutcome::Fail(AuthError::Expired)));
    assert!(matches!(poll().after_refusal(r#"{"error":"device_code_expired"}"#), PollOutcome::Fail(AuthError::Expired)));
}

#[test]
fn poll_denied_and_other_errors() {
    assert_eq!(fail_message(&poll().after_refusal(r#"{"message":"access_denied"}"#)), Some("Access denied by user"));
    assert_eq!(
        fail_message(&poll().after_refusal(r#"{"error":"invalid_client","error_description":"bad client"}"#)),
        Some("invalid_client \u{2014} bad client")
    );
    assert_eq!(fail_message(&poll().after_refusal(r#"{"message":"weird"}"#)), Some("weird \u{2014} weird"));
    assert_eq!(fail_message(&poll().after_refusal(r#"{"status":500}"#)), Some(" \u{2014} "));
    assert!(matches!(poll().after_refusal(r#"{"error":7,"message":"slow_down"}"#), PollOutcome::SlowDown));
}

#[test]
fn poll_unreadable_error_body() {
    assert_eq!(fail_message(&poll().after_refusal("<html>oops</html>")), Some("Failed to parse error response"));
}

#[test]
fn poll_waits_before_every_poll_but_the_first() {
    let mut p = poll();
    assert!(!p.polled);
    assert!(matches!(p.before_request(1_000), PollWait::RequestNow));
    assert!(p.polled);
    assert!(matches!(p.before_request(1_000), PollWait::WaitThenRequest(5)));
    assert!(matches!(p.before_request(1_599), PollWait::WaitThenRequest(5)));
    p.slow_down();
    assert!(matches!(p.before_request(1_599), PollWait::WaitThenRequest(10)));
    assert!(matches!(p.before_request(1_600), PollWait::Expired));
    assert!(matches!(p.before_request(5_000), PollWait::Expired));
    let mut late = poll();
    assert!(matches!(late.before_request(1_300), PollWait::RequestNow));
    let mut expired = poll();
    assert!(matches!(expired.before_request(1_600), PollWait::Expired));
    assert!(!expired.polled);
}

#[test]
fn refusal_outcome_from_body_members() {
    assert!(matches!(refusal_outcome(true, None, Some("authorization_pending"), None), PollOutcome::KeepPolling));
    assert!(matches!(refusal_outcome(true, Some("slow_down"), Some("x"), None), PollOutcome::SlowDown));
    assert!(matches!(refusal_outcome(true, Some("device_code_expired"), None, None), PollOutcome::Fail(AuthError::Expired)));
    assert_eq!(fail_message(&refusal_outcome(true, None, None, None)), Some(" \u{2014} "));
    assert_eq!(fail_message(&refusal_outcome(true, Some("e"), None, Some("d"))), Some("e \u{2014} d"));
    assert_eq!(fail_message(&refusal_outcome(false, Some("slow_down"), None, None)), Some("Failed to parse error response"));
}

#[test]
fn forms_hold_the_flow_parameters() {
    let f = device_flow_form("cid");
    assert_eq!(f, vec![("client_id".to_string(), "cid".to_string()), ("scopes".to_string(), SCOPES.to_string())]);
    let f = device_token_form("cid", "sec", "dev");
    assert_eq!(f[2], ("device_code".to_string(), "dev".to_string()));
    assert_eq!(f[3], ("grant_type".to_string(), DEVICE_GRANT.to_string()));
    assert_eq!(DEVICE_GRANT, "urn:ietf:params:oauth:grant-type:device_code");
    let f = refresh_form("cid", "rt");
    assert_eq!(f, vec![
        ("client_id".to_string(), "cid".to_string()),
        ("refresh_token".to_string(), "rt".to_string()),
        ("grant_type".to_string(), "refresh_token".to_string()),
    ]);
    assert_eq!(validation_authorization("tok"), "OAuth tok");
}

#[test]
fn refusals_carry_the_body() {
    assert_eq!(api_message(&refusal(AuthRequest::DeviceFlow, "nope")), Some("Failed to start device flow: nope"));
    assert_eq!(api_message(&refusal(AuthRequest::Refresh, "")), Some("Failed to refresh token: "));
    assert_eq!(api_message(&refusal(AuthRequest::Validate, "x")), Some("Failed to validate token: x"));
}

#[test]
fn auth_error_messages() {
    assert_eq!(AuthError::Http("timeout".to_string()).message(), "HTTP error: timeout");
    assert_eq!(AuthError::Api("denied".to_string()).message(), "API error: denied");
    assert_eq!(AuthError::Pending.message(), "Authorization pending");
    assert_eq!(AuthError::SlowDown.message(), "Slow down");
    assert_eq!(AuthError::Expired.message(), "Token expired");
}

#[test]
fn token_expiry_defaults_to_four_hours() {
    assert_eq!(token_expiry(1_000, Some(60)), 1_060);
    assert_eq!(token_expiry(1_000, None), 15_400);
    assert_eq!(checked_token_expiry(1_000, None), Some(15_400));
    assert_eq!(checked_token_expiry(1, Some(i64::MAX)), None);
    assert_eq!(checked_token_expiry(-1, Some(i64::MIN)), None);
    assert_eq!(checked_token_expiry(-1, Some(i64::MAX)), Some(i64::MAX - 1));
}

#[test]
fn storing_a_login_sets_tokens_and_user() {
    let s = GlobalSettings { access_token: None, refresh_token: None, token_expires_at: None, user_id: None, username: None, ..logged_in() };
    assert!(!s.is_authenticated());
    let v = ValidateResponse { user_id: "7".to_string(), login: "me".to_string(), expires_in: 100 };
    let u = settings_with_token(s, token("acc", Some("ref"), Some(3600)), v, 500);
    assert!(u.is_authenticated());
    assert_eq!(u.access_token.as_deref(), Some("acc"));
    assert_eq!(u.refresh_token.as_deref(), Some("ref"));
    assert_eq!(u.token_expires_at, Some(4_100));
    assert_eq!(u.user_id.as_deref(), Some("7"));
    assert_eq!(u.username.as_deref(), Some("me"));
    assert_eq!(u.client_id, "cid");
    assert_eq!(u.client_secret, "secret");
    match plan_token_use(&u, 1_000) {
        TokenPlan::Ready((a, uid, cid)) => {
            assert_eq!(a, "acc");
            assert_eq!(uid, "7");
            assert_eq!(cid, "cid");
        }
        _ => panic!("expected the stored token"),
    }
}

#[test]
fn plan_uses_a_fresh_token() {
    match plan_token_use(&logged_in(), 9_940) {
        TokenPlan::Ready((a, uid, cid)) => {
            assert_eq!((a.as_str(), uid.as_str(), cid.as_str()), ("old-access", "42", "cid"));
        }
        _ => panic!("expected the stored token"),
    }
}

#[test]
fn plan_refreshes_a_token_about_to_expire() {
    match plan_token_use(&logged_in(), 9_941) {
        TokenPlan::Refresh(rt) => assert_eq!(rt, "old-refresh"),
        _ => panic!("expected a refresh"),
    }
    let no_refresh = GlobalSettings { refresh_token: None, ..logged_in() };
    assert!(matches!(plan_token_use(&no_refresh, 9_999), TokenPlan::Ready(_)));
    assert!(matches!(plan_token_use(&no_refresh, 10_000), TokenPlan::Unauthenticated));
    assert!(matches!(plan_token_use(&no_refresh, 20_000), TokenPlan::Unauthenticated));
    assert!(matches!(plan_token_use(&logged_in(), 20_000), TokenPlan::Refresh(_)));
    let no_expiry = GlobalSettings { token_expires_at: None, ..logged_in() };
    assert!(matches!(plan_token_use(&no_expiry, 20_000), TokenPlan::Ready(_)));
}

#[test]
fn plan_without_login() {
    assert!(matches!(plan_token_use(&GlobalSettings::default(), 0), TokenPlan::Unauthenticated));
    let no_client = GlobalSettings { client_id: String::new(), ..logged_in() };
    assert!(matches!(plan_token_use(&no_client, 0), TokenPlan::Unauthenticated));
}

#[test]
fn plan_with_extreme_times_does_not_overflow() {
    let s = GlobalSettings { token_expires_at: Some(i64::MIN), ..logged_in() };
    assert!(matches!(plan_token_use(&s, i64::MAX), TokenPlan::Refresh(_)));
    let s = GlobalSettings { token_expires_at: Some(i64::MIN), refresh_token: None, ..logged_in() };
    assert!(matches!(plan_token_use(&s, i64::MAX), TokenPlan::Unauthenticated));
    let s = GlobalSettings { token_expires_at: Some(i64::MAX), ..logged_in() };
    assert!(matches!(plan_token_use(&s, i64::MIN), TokenPlan::Ready(_)));
}

#[test]
fn refreshed_token_replaces_tokens_only() {
    let (u, (a, uid, cid)) = apply_refreshed_token(logged_in(), token("new-access", None, None), 2_000);
    assert_eq!(u.access_token.as_deref(), Some("new-access"));
    assert_eq!(u.refresh_token, None);
    assert_eq!(u.token_expires_at, Some(16_400));
    assert_eq!(u.user_id.as_deref(), Some("42"));
    assert_eq!(u.username.as_deref(), Some("streamer"));
    assert_eq!((a.as_str(), uid.as_str(), cid.as_str()), ("new-access", "42", "cid"));
    let no_user = GlobalSettings { user_id: None, ..logged_in() };
    let (_, (_, uid, _)) = apply_refreshed_token(no_user, token("n", Some("r"), Some(1)), 0);
    assert_eq!(uid, "");
}

#[test]
fn clearing_tokens_keeps_client_credentials() {
    let c = cleared_tokens(logged_in());
    assert!(!c.is_authenticated());
    assert_eq!(c.client_id, "cid");
    assert_eq!(c.client_secret, "secret");
    assert_eq!(c.access_token, None);
    assert_eq!(c.refresh_token, None);
    assert_eq!(c.token_expires_at, None);
    assert_eq!(c.user_id, None);
    assert_eq!(c.username, None);
}

fn clock() -> i64 {
    std::time::SystemTime::now().duration_since(std::time::UNIX_EPOCH).unwrap().as_secs() as i64
}

#[test]
fn plans_at_the_present_time() {
    let fresh = GlobalSettings { token_expires_at: Some(clock() + 3_600), ..logged_in() };
    assert!(matches!(plan_token_use_now(&fresh), Some(TokenPlan::Ready(_))));
    assert!(matches!(plan_token_use_now(&logged_in()), Some(TokenPlan::Refresh(_))));
    assert!(matches!(plan_token_use_now(&GlobalSettings::default()), Some(TokenPlan::Unauthenticated)));
}

#[test]
fn tokens_stored_at_the_present_time() {
    let before = clock();
    let (u, (a, _, _)) = apply_refreshed_token_now(logged_in(), token("fresh", None, Some(100))).unwrap();
    let after = clock();
    let at = u.token_expires_at.unwrap();
    assert!(before + 100 <= at && at <= after + 100);
    assert_eq!(a, "fresh");
    let v = ValidateResponse { user_id: "1".to_string(), login: "l".to_string(), expires_in: 0 };
    let s = settings_with_token_now(GlobalSettings::default(), token("t", None, None), v).unwrap();
    assert!(s.token_expires_at.unwrap() >= before + 14_400);
    assert!(matches!(apply_refreshed_token_now(logged_in(), token("x", None, Some(i64::MAX))), Err(TimeError::ExpiryOutOfRange)));
    let v = ValidateResponse { user_id: "1".to_string(), login: "l".to_string(), expires_in: 0 };
    assert!(matches!(settings_with_token_now(GlobalSettings::default(), token("t", None, Some(i64::MAX)), v), Err(TimeError::ExpiryOutOfRange)));
}

#[test]
fn poll_started_now_requests_at_once_then_waits() {
    let mut p = DevicePoll::start_now(5, 600).unwrap();
    assert_eq!((p.interval, p.expires_in, p.polled), (5, 600, false));
    assert!(matches!(p.before_request_now(), Some(PollWait::RequestNow)));
    assert!(matches!(p.before_request_now(), Some(PollWait::WaitThenRequest(5))));
    let mut q = DevicePoll::start_now(5, 0).unwrap();
    assert!(matches!(q.before_request_now(), Some(PollWait::Expired)));
}
