use identity_gateway::client::{HcaClient, HcaIdentity};
use identity_gateway::errors::{LoginError, MeError, RotateError};
use identity_gateway::flows::{me, oauth_exchange_and_upsert, revoke, rotate};
use identity_gateway::state::AppState;
use identity_gateway::store::Store;
use identity_gateway::vault::{decrypt, parse_master_key};

const NOW: u64 = 1_700_000_000;

fn mock_app() -> AppState {
    let hca = HcaClient::new_mock(
        "https://auth.example.test".to_string(),
        "client-id".to_string(),
        "client-secret".to_string(),
        "http://localhost:8000/oauth/callback".to_string(),
    );
    let key = parse_master_key("base64:QUFBQUFBQUFBQUFBQUFBQUFBQUFBQUFBQUFBQUFBQUE=").unwrap();
    AppState::new(hca, key, "signing-secret".to_string(), 60 * 60 * 24 * 30)
}

fn profile(ext: &str, email: Option<&str>, slack: Option<&str>, name: Option<&str>) -> HcaIdentity {
    HcaIdentity {
        id: ext.to_string(),
        email: email.map(|s| s.to_string()),
        slack_id: slack.map(|s| s.to_string()),
        display_name: name.map(|s| s.to_string()),
    }
}

fn login(
    app: &AppState,
    store: &mut Store,
    p: &HcaIdentity,
) -> Result<(String, String), LoginError> {
    oauth_exchange_and_upsert(
        app,
        store,
        "provider-access-token",
        &Some("provider-refresh-token".to_string()),
        p,
        NOW,
    )
}

#[test]
fn first_login_creates_one_user_and_one_identity() {
    let app = mock_app();
    let mut store = Store::new();
    let p = profile("abc", Some("a@x.com"), Some("S1"), Some("A"));
    let (jwt, refresh) = login(&app, &mut store, &p).unwrap();
    assert!(!jwt.is_empty());
    assert!(!refresh.is_empty());
    assert_eq!(store.users.len(), 1);
    assert_eq!(store.identities.len(), 1);
    assert_eq!(store.token_records.len(), 1);
    assert_eq!(store.refresh_tokens.len(), 1);
    assert_eq!(store.users[0].email.as_str(), "a@x.com");
    assert_eq!(store.users[0].display_name.as_deref(), Some("A"));
    assert_eq!(store.identities[0].user_id, store.users[0].id);
    assert_eq!(store.identities[0].provider.as_str(), "hack_club");
    assert_eq!(store.identities[0].uid.as_str(), "abc");
    assert_eq!(store.identities[0].slack_id.as_deref(), Some("S1"));
}

#[test]
fn repeated_login_creates_no_account_rows() {
    let app = mock_app();
    let mut store = Store::new();
    let p = profile("abc", Some("a@x.com"), Some("S1"), Some("A"));
    login(&app, &mut store, &p).unwrap();
    login(&app, &mut store, &p).unwrap();
    assert_eq!(store.users.len(), 1);
    assert_eq!(store.identities.len(), 1);
    // token snapshots are append-only: one per successful login
    assert_eq!(store.token_records.len(), 2);
    // each login issues its own refresh lineage (multi-device)
    assert_eq!(store.refresh_tokens.len(), 2);
}

#[test]
fn logins_sharing_an_email_share_the_user() {
    let app = mock_app();
    let mut store = Store::new();
    login(&app, &mut store, &profile("abc", Some("a@x.com"), Some("S1"), None)).unwrap();
    login(&app, &mut store, &profile("def", Some("a@x.com"), Some("S2"), None)).unwrap();
    assert_eq!(store.users.len(), 1);
    assert_eq!(store.identities.len(), 2);
    assert_eq!(store.identities[0].user_id, store.identities[1].user_id);
}

#[test]
fn vaulted_tokens_decrypt_to_the_provider_tokens() {
    let app = mock_app();
    let mut store = Store::new();
    let p = profile("abc", Some("a@x.com"), Some("S1"), None);
    login(&app, &mut store, &p).unwrap();
    let rec = &store.token_records[0];
    let access = decrypt(&app.master_key, &rec.encrypted_access_token, &rec.nonce).unwrap();
    assert_eq!(access, b"provider-access-token".to_vec());
    let refresh = decrypt(
        &app.master_key,
        rec.encrypted_refresh_token.as_ref().unwrap(),
        rec.nonce_refresh.as_ref().unwrap(),
    )
    .unwrap();
    assert_eq!(refresh, b"provider-refresh-token".to_vec());
    assert_eq!(rec.created_at, NOW);
}

#[test]
fn login_without_provider_refresh_stores_no_refresh_snapshot() {
    let app = mock_app();
    let mut store = Store::new();
    let p = profile("abc", Some("a@x.com"), Some("S1"), None);
    oauth_exchange_and_upsert(&app, &mut store, "tok", &None, &p, NOW).unwrap();
    let rec = &store.token_records[0];
    assert!(rec.encrypted_refresh_token.is_none());
    assert!(rec.nonce_refresh.is_none());
}

#[test]
fn incomplete_profile_is_rejected_without_writes() {
    let app = mock_app();
    let mut store = Store::new();
    let no_email = profile("abc", None, Some("S1"), None);
    assert_eq!(login(&app, &mut store, &no_email), Err(LoginError::IncompleteProfile));
    let no_slack = profile("abc", Some("a@x.com"), None, None);
    assert_eq!(login(&app, &mut store, &no_slack), Err(LoginError::IncompleteProfile));
    assert_eq!(store.users.len(), 0);
    assert_eq!(store.identities.len(), 0);
    assert_eq!(store.token_records.len(), 0);
    assert_eq!(store.refresh_tokens.len(), 0);
}

#[test]
fn unrepresentable_expiry_is_a_config_error() {
    let app = mock_app();
    let mut store = Store::new();
    let p = profile("abc", Some("a@x.com"), Some("S1"), None);
    let r = oauth_exchange_and_upsert(&app, &mut store, "tok", &None, &p, u64::MAX - 10);
    assert_eq!(r, Err(LoginError::Config));
    assert_eq!(store.users.len(), 0);
}

#[test]
fn rotation_redeems_once_and_reissues() {
    let app = mock_app();
    let mut store = Store::new();
    let p = profile("abc", Some("a@x.com"), Some("S1"), None);
    let (_jwt, refresh) = login(&app, &mut store, &p).unwrap();
    let (new_jwt, new_refresh) = rotate(&app, &mut store, &refresh, NOW + 10).unwrap();
    assert!(!new_jwt.is_empty());
    assert_ne!(new_refresh, refresh);
    assert_eq!(store.refresh_tokens.len(), 1);
    // the old token was single-use: a second redemption fails
    assert_eq!(
        rotate(&app, &mut store, &refresh, NOW + 20),
        Err(RotateError::InvalidRefreshToken)
    );
    // the reissued token is live
    assert!(rotate(&app, &mut store, &new_refresh, NOW + 30).is_ok());
}

#[test]
fn unknown_refresh_token_is_rejected_without_writes() {
    let app = mock_app();
    let mut store = Store::new();
    let p = profile("abc", Some("a@x.com"), Some("S1"), None);
    login(&app, &mut store, &p).unwrap();
    let before = store.refresh_tokens.len();
    assert_eq!(
        rotate(&app, &mut store, "never-issued", NOW),
        Err(RotateError::InvalidRefreshToken)
    );
    assert_eq!(store.refresh_tokens.len(), before);
    assert_eq!(store.users.len(), 1);
}

#[test]
fn expired_refresh_token_is_rejected_like_an_unknown_one() {
    let app = mock_app();
    let mut store = Store::new();
    let p = profile("abc", Some("a@x.com"), Some("S1"), None);
    let (_jwt, refresh) = login(&app, &mut store, &p).unwrap();
    let past_expiry = NOW + app.refresh_token_expiry_seconds;
    assert_eq!(
        rotate(&app, &mut store, &refresh, past_expiry),
        Err(RotateError::InvalidRefreshToken)
    );
}

#[test]
fn revoke_twice_succeeds_both_times() {
    let app = mock_app();
    let mut store = Store::new();
    let p = profile("abc", Some("a@x.com"), Some("S1"), None);
    let (_jwt, refresh) = login(&app, &mut store, &p).unwrap();
    revoke(&mut store, &refresh);
    assert_eq!(store.refresh_tokens.len(), 0);
    revoke(&mut store, &refresh);
    assert_eq!(store.refresh_tokens.len(), 0);
    // a revoked token no longer rotates
    assert_eq!(
        rotate(&app, &mut store, &refresh, NOW),
        Err(RotateError::InvalidRefreshToken)
    );
}

#[test]
fn me_returns_the_subject_row() {
    let app = mock_app();
    let mut store = Store::new();
    let p = profile("abc", Some("a@x.com"), Some("S1"), Some("A"));
    let (jwt, _refresh) = login(&app, &mut store, &p).unwrap();
    let header = format!("Bearer {}", jwt);
    let user = me(&store, Some(&header), "signing-secret", NOW + 10).unwrap();
    assert_eq!(user.email.as_str(), "a@x.com");
    assert_eq!(user.id, store.users[0].id);
}

#[test]
fn me_rejects_bad_headers_and_tokens() {
    let app = mock_app();
    let mut store = Store::new();
    let p = profile("abc", Some("a@x.com"), Some("S1"), None);
    let (jwt, _refresh) = login(&app, &mut store, &p).unwrap();
    assert!(matches!(
        me(&store, None, "signing-secret", NOW),
        Err(MeError::MissingAuthorization)
    ));
    assert!(matches!(
        me(&store, Some("Basic xyz"), "signing-secret", NOW),
        Err(MeError::MalformedAuthorization)
    ));
    assert!(matches!(
        me(&store, Some("Bearer not.a.token"), "signing-secret", NOW),
        Err(MeError::InvalidToken)
    ));
    let header = format!("Bearer {}", jwt);
    // expired access token
    assert!(matches!(
        me(&store, Some(&header), "signing-secret", NOW + 3601),
        Err(MeError::InvalidToken)
    ));
    // valid token whose subject is gone from the store
    let empty = Store::new();
    assert!(matches!(me(&empty, Some(&header), "signing-secret", NOW), Err(MeError::NotFound)));
}

#[test]
fn rotation_with_unrepresentable_expiry_is_a_config_error() {
    let app = mock_app();
    let mut store = Store::new();
    let p = profile("abc", Some("a@x.com"), Some("S1"), None);
    let (_jwt, refresh) = login(&app, &mut store, &p).unwrap();
    let before = store.refresh_tokens.len();
    assert_eq!(
        rotate(&app, &mut store, &refresh, u64::MAX - 10),
        Err(RotateError::Config)
    );
    assert_eq!(store.refresh_tokens.len(), before);
}
