use cloud_sync::errors::{CloudSyncError, TokenError};
use cloud_sync::initialization::OneDrive;
use cloud_sync::token_manager::{
    build_access_request_url, token_search_failure, token_store_step, StoreWait, Tokens,
    TokensImport, AUTHORIZE_URL, TOKEN_POLL_SECS,
};

fn tokens(expires_in: i64, refreshed_at: i64) -> Tokens {
    Tokens {
        token_type: "Bearer".to_string(),
        scope: "files.read offline_access".to_string(),
        expires_in,
        ext_expires_in: expires_in,
        access_token: "access".to_string(),
        refresh_token: "refresh".to_string(),
        granted_at: 0,
        refreshed_at,
    }
}

fn config() -> OneDrive {
    OneDrive {
        redirect_uri: "https://example.org/code".to_string(),
        client_id: "client-1".to_string(),
        client_secret: "SECRET-REDACTED".to_string(),
        scope: "files.read offline_access".to_string(),
        tokens_path: "/tmp/tokens.json".to_string(),
        delta_link_path: "/tmp/delta.json".to_string(),
    }
}

fn import() -> TokensImport {
    TokensImport {
        token_type: "Bearer".to_string(),
        scope: "files.read".to_string(),
        expires_in: 3599,
        ext_expires_in: 3599,
        access_token: "new-access".to_string(),
        refresh_token: "new-refresh".to_string(),
    }
}

#[test]
fn token_older_than_ceiling_is_expired_despite_long_lifetime() {
    let now: i64 = 1_700_000_000;
    assert!(tokens(3600, now - 1900).is_expired(now));
}

#[test]
fn token_within_both_limits_is_valid() {
    let now: i64 = 1_700_000_000;
    assert!(!tokens(3600, now - 100).is_expired(now));
    assert!(!tokens(3600, now - 1800).is_expired(now));
}

#[test]
fn token_past_short_lifetime_is_expired() {
    let now: i64 = 1_700_000_000;
    assert!(tokens(60, now - 61).is_expired(now));
    assert!(!tokens(60, now - 60).is_expired(now));
}

#[test]
fn expiry_counts_from_refresh_not_grant() {
    let now: i64 = 1_700_000_000;
    let mut t = tokens(3600, now - 10);
    t.granted_at = now - 100_000;
    assert!(!t.is_expired(now));
}

#[test]
fn refresh_replaces_rotatable_fields() {
    let mut t = tokens(3600, 5);
    t.granted_at = 3;
    t.apply_refresh(import(), 1_700_000_000);
    assert_eq!(t.access_token, "new-access");
    assert_eq!(t.refresh_token, "new-refresh");
    assert_eq!(t.expires_in, 3599);
    assert_eq!(t.scope, "files.read");
    assert_eq!(t.granted_at, 3);
    assert_eq!(t.refreshed_at, 1_700_000_000);
    assert_eq!(t.get_access_token(), "new-access");
}

#[test]
fn grant_sets_both_times_together() {
    let t = Tokens::from_import(import(), 1_700_000_000);
    assert_eq!(t.granted_at, 1_700_000_000);
    assert_eq!(t.refreshed_at, 1_700_000_000);
    assert_eq!(t.refresh_token, "new-refresh");
}

#[test]
fn code_and_refresh_forms() {
    let c = config();
    let form = Tokens::code_request_form(&c, "grant-1");
    let expect: Vec<(String, String)> = vec![
        ("client_id".to_string(), "client-1".to_string()),
        ("scope".to_string(), "files.read offline_access".to_string()),
        ("code".to_string(), "grant-1".to_string()),
        ("redirect_uri".to_string(), "https://example.org/code".to_string()),
        ("grant_type".to_string(), "authorization_code".to_string()),
        ("client_secret".to_string(), "SECRET-REDACTED".to_string()),
    ];
    assert_eq!(form, expect);
    let refresh = tokens(1, 1).refresh_request_form(&c);
    assert_eq!(refresh[2], ("refresh_token".to_string(), "refresh".to_string()));
    assert_eq!(refresh[3], ("grant_type".to_string(), "refresh_token".to_string()));
    assert_eq!(refresh.len(), 5);
}

#[test]
fn access_request_url_encodes_query() {
    let url = build_access_request_url(&config()).unwrap();
    assert!(url.starts_with(AUTHORIZE_URL));
    assert!(url.contains("?client_id=client-1&response_type=code"));
    assert!(url.contains("redirect_uri=https%3A%2F%2Fexample.org%2Fcode"));
    assert!(url.contains("response_mode=query"));
    assert!(url.contains("scope=files.read+offline_access"));
}

#[test]
fn rejected_refresh_sends_search_back_to_waiting() {
    assert!(token_search_failure(TokenError::RefreshTokenExpired).is_none());
    let e = token_search_failure(TokenError::Request("timeout".to_string())).unwrap();
    assert_eq!(e.to_string(), "CloudSyncError::TokenError: timeout");
}

#[test]
fn token_errors_map_into_pass_errors() {
    assert!(CloudSyncError::from(TokenError::RefreshTokenExpired).is_token_warning());
    assert!(CloudSyncError::from(TokenError::NoTokensFile).is_token_warning());
    let e = CloudSyncError::from(TokenError::FileIO("disk".to_string()));
    assert!(!e.is_token_warning());
    assert_eq!(e.to_string(), "CloudSyncError::TokenError: disk");
    assert_eq!(TokenError::FileIO("x".to_string()).to_string(), "TokenError::File: x");
    assert_eq!(TokenError::NoTokensFile.to_string(), "TokenError::NoTokensFile");
}

#[test]
fn rejected_refresh_leaves_set_and_reports_expiry() {
    let mut t = tokens(3600, 5);
    let r = t.apply_refresh_response(false, None, 99);
    assert!(matches!(r, Err(TokenError::RefreshTokenExpired)));
    assert_eq!(t.access_token, "access");
    assert_eq!(t.refreshed_at, 5);
}

#[test]
fn accepted_refresh_applies_credentials_at_now() {
    let mut t = tokens(3600, 5);
    assert!(t.apply_refresh_response(true, Some(import()), 99).is_ok());
    assert_eq!(t.access_token, "new-access");
    assert_eq!(t.refresh_token, "new-refresh");
    assert_eq!(t.refreshed_at, 99);
    let mut u = tokens(3600, 5);
    let r = u.apply_refresh_response(true, None, 99);
    assert!(matches!(r, Err(TokenError::FileIO(_))));
    assert_eq!(u.refreshed_at, 5);
}

#[test]
fn missing_store_is_polled_with_one_warning() {
    assert_eq!(token_store_step(true, false), (StoreWait::Read, false));
    assert_eq!(token_store_step(true, true), (StoreWait::Read, true));
    assert_eq!(
        token_store_step(false, false),
        (StoreWait::Sleep { secs: TOKEN_POLL_SECS, warn: true }, true)
    );
    assert_eq!(
        token_store_step(false, true),
        (StoreWait::Sleep { secs: 60, warn: false }, true)
    );
}
