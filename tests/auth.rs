use gopener::auth::{
    apply_exchange, apply_refresh, authorization_url, check_decision, effective_client_id,
    effective_client_secret, exchange_form, refresh_form, require_stored, settle_refresh,
    sign_out_writes, start_authorization, token_expiry, valid_token, AuthState, CheckDecision,
    TokenResponse, DEFAULT_CLIENT_ID,
};
use gopener::keychain::{CredentialKey, StoreOp};
use std::collections::HashMap;

fn apply(store: &mut HashMap<String, String>, writes: &[StoreOp]) {
    for w in writes {
        match w {
            StoreOp::Put(k, v) => {
                store.insert(k.name().to_string(), v.clone());
            }
            StoreOp::Remove(k) => {
                store.remove(k.name());
            }
        }
    }
}

fn check(store: &HashMap<String, String>, now: u64) -> CheckDecision {
    check_decision(
        store.get("access_token").cloned(),
        store.get("token_expiry").cloned(),
        store.contains_key("refresh_token"),
        now,
    )
}

fn response(access: &str, refresh: Option<&str>, expires_in: u64) -> TokenResponse {
    TokenResponse {
        access_token: access.to_string(),
        refresh_token: refresh.map(|r| r.to_string()),
        expires_in,
        token_type: "Bearer".to_string(),
    }
}

#[test]
fn client_id_falls_back_to_default() {
    assert_eq!(effective_client_id(None), DEFAULT_CLIENT_ID);
    assert_eq!(effective_client_id(Some(String::new())), DEFAULT_CLIENT_ID);
    assert_eq!(effective_client_id(Some("mine".to_string())), "mine");
    assert_eq!(effective_client_secret(Some(String::new())), None);
    assert_eq!(effective_client_secret(Some("s".to_string())), Some("s".to_string()));
    assert_eq!(effective_client_secret(None), None);
}

#[test]
fn authorization_url_carries_every_parameter() {
    let url = authorization_url("abc.apps.googleusercontent.com", "CHALLENGE-_x");
    assert_eq!(
        url,
        "https://accounts.google.com/o/oauth2/v2/auth?client_id=abc.apps.googleusercontent.com&redirect_uri=http%3A%2F%2Flocalhost%3A8085&response_type=code&scope=https%3A%2F%2Fwww.googleapis.com%2Fauth%2Fdrive.file%20https%3A%2F%2Fwww.googleapis.com%2Fauth%2Fdrive.readonly&code_challenge=CHALLENGE-_x&code_challenge_method=S256&access_type=offline&prompt=consent"
    );
}

#[test]
fn start_authorization_stores_verifier() {
    let start = start_authorization(Some("id1.apps.googleusercontent.com".to_string()));
    assert_eq!(start.writes.len(), 1);
    match &start.writes[0] {
        StoreOp::Put(CredentialKey::PkceVerifier, v) => {
            assert_eq!(v.len(), 43);
            assert!(start.url.contains("client_id=id1.apps.googleusercontent.com&"));
            assert!(start.url.contains("code_challenge_method=S256"));
        }
        other => panic!("unexpected {:?}", other),
    }
}

#[test]
fn exchange_form_adds_secret_only_when_present() {
    let f = exchange_form("c".to_string(), "id".to_string(), "v".to_string(), None);
    let got: Vec<(&str, &str)> = f.iter().map(|(k, v)| (*k, v.as_str())).collect();
    assert_eq!(
        got,
        vec![
            ("code", "c"),
            ("client_id", "id"),
            ("redirect_uri", "http://localhost:8085"),
            ("grant_type", "authorization_code"),
            ("code_verifier", "v"),
        ]
    );
    let g = exchange_form("c".to_string(), "id".to_string(), "v".to_string(), Some("s".to_string()));
    assert_eq!(g.len(), 6);
    assert_eq!(g[5].0, "client_secret");
    assert_eq!(g[5].1, "s");
}

#[test]
fn refresh_form_fields() {
    let f = refresh_form("rt".to_string(), "id".to_string(), Some("s".to_string()));
    let got: Vec<(&str, &str)> = f.iter().map(|(k, v)| (*k, v.as_str())).collect();
    assert_eq!(
        got,
        vec![
            ("refresh_token", "rt"),
            ("client_id", "id"),
            ("grant_type", "refresh_token"),
            ("client_secret", "s"),
        ]
    );
}

#[test]
fn missing_verifier_is_an_error() {
    assert_eq!(
        require_stored(None, "No PKCE verifier found").unwrap_err(),
        "No PKCE verifier found"
    );
    assert_eq!(require_stored(Some("v".to_string()), "x").unwrap(), "v");
}

#[test]
fn expiry_is_now_plus_lifetime() {
    assert_eq!(token_expiry(1_700_000_000, 3600), 1_700_003_600);
}

#[test]
fn fresh_right_after_exchange() {
    let now = 1_700_000_000;
    let mut store = HashMap::new();
    store.insert("pkce_verifier".to_string(), "v".to_string());
    let update = apply_exchange(response("at", Some("rt"), 3600), now);
    assert!(update.state.is_authenticated);
    assert_eq!(update.state.access_token.as_deref(), Some("at"));
    assert_eq!(update.state.expires_at, Some(now + 3600));
    apply(&mut store, &update.writes);
    assert_eq!(store.get("token_expiry").map(|s| s.as_str()), Some("1700003600"));
    assert!(!store.contains_key("pkce_verifier"));
    match check(&store, now) {
        CheckDecision::Settled(s) => {
            assert!(s.is_authenticated);
            assert_eq!(s.access_token.as_deref(), Some("at"));
            assert_eq!(s.expires_at, Some(now + 3600));
        }
        CheckDecision::AttemptRefresh => panic!("fresh token must not be refreshed"),
    }
}

#[test]
fn near_expiry_triggers_refresh() {
    let now = 1_700_000_000;
    let mut store = HashMap::new();
    apply(&mut store, &apply_exchange(response("at", Some("rt"), 200), now).writes);
    assert!(matches!(check(&store, now), CheckDecision::AttemptRefresh));
}

#[test]
fn near_expiry_without_refresh_token_is_signed_out() {
    let now = 1_700_000_000;
    let mut store = HashMap::new();
    apply(&mut store, &apply_exchange(response("at", None, 200), now).writes);
    match check(&store, now) {
        CheckDecision::Settled(s) => {
            assert!(!s.is_authenticated);
            assert_eq!(s.access_token, None);
            assert_eq!(s.expires_at, Some(now + 200));
        }
        CheckDecision::AttemptRefresh => panic!("no refresh token is stored"),
    }
}

#[test]
fn margin_boundary_is_exclusive() {
    let d = check_decision(Some("t".to_string()), Some("1300".to_string()), false, 1000);
    assert!(matches!(d, CheckDecision::Settled(ref s) if !s.is_authenticated));
    let e = check_decision(Some("t".to_string()), Some("1301".to_string()), false, 1000);
    assert!(matches!(e, CheckDecision::Settled(ref s) if s.is_authenticated));
}

#[test]
fn unreadable_expiry_is_not_fresh() {
    let d = check_decision(Some("t".to_string()), Some("soon".to_string()), true, 0);
    assert!(matches!(d, CheckDecision::AttemptRefresh));
}

#[test]
fn refresh_keeps_refresh_token() {
    let now = 5000;
    let mut store = HashMap::new();
    store.insert("refresh_token".to_string(), "rt".to_string());
    let update = apply_refresh(response("new", Some("rotated"), 3600), now);
    apply(&mut store, &update.writes);
    assert_eq!(store.get("refresh_token").map(|s| s.as_str()), Some("rt"));
    assert_eq!(store.get("access_token").map(|s| s.as_str()), Some("new"));
    assert_eq!(store.get("token_expiry").map(|s| s.as_str()), Some("8600"));
    assert_eq!(update.state.expires_at, Some(8600));
}

#[test]
fn sign_out_twice_leaves_signed_out() {
    let mut store = HashMap::new();
    apply(&mut store, &apply_exchange(response("at", Some("rt"), 3600), 10).writes);
    store.insert("custom_client_id".to_string(), "c".to_string());
    apply(&mut store, &sign_out_writes());
    let once = store.clone();
    apply(&mut store, &sign_out_writes());
    assert_eq!(store, once);
    assert!(!store.contains_key("access_token"));
    assert!(!store.contains_key("refresh_token"));
    assert_eq!(store.get("custom_client_id").map(|s| s.as_str()), Some("c"));
    match check(&store, 10) {
        CheckDecision::Settled(s) => {
            assert!(!s.is_authenticated);
            assert_eq!(s.access_token, None);
        }
        CheckDecision::AttemptRefresh => panic!("nothing to refresh"),
    }
}

#[test]
fn failed_refresh_reports_signed_out() {
    let s = settle_refresh(Err("Token refresh failed: invalid_grant".to_string()));
    assert!(!s.is_authenticated);
    assert_eq!(s.access_token, None);
    assert_eq!(s.expires_at, None);
    let ok = settle_refresh(Ok(AuthState {
        is_authenticated: true,
        access_token: Some("t".to_string()),
        expires_at: Some(9),
    }));
    assert!(ok.is_authenticated);
    assert_eq!(ok.expires_at, Some(9));
}

#[test]
fn valid_token_requires_authentication() {
    assert_eq!(valid_token(AuthState::signed_out()).unwrap_err(), "Not authenticated");
    let t = valid_token(AuthState {
        is_authenticated: true,
        access_token: Some("tok".to_string()),
        expires_at: Some(1),
    });
    assert_eq!(t.unwrap(), "tok");
}

#[test]
fn expiry_with_plus_sign_is_read() {
    let d = check_decision(Some("a".to_string()), Some("+999".to_string()), false, 0);
    match d {
        CheckDecision::Settled(s) => {
            assert!(s.is_authenticated);
            assert_eq!(s.access_token.as_deref(), Some("a"));
            assert_eq!(s.expires_at, Some(999));
        }
        CheckDecision::AttemptRefresh => panic!("token is fresh"),
    }
}
