use identity_gateway::client::{HcaClient, start_hca_auth};

fn live_client() -> HcaClient {
    HcaClient::new(
        "https://auth.example.test".to_string(),
        "my-client-id".to_string(),
        "my-client-secret".to_string(),
        "http://localhost:8000/oauth/callback".to_string(),
    )
}

#[test]
fn mock_auth_url_embeds_callback_and_state() {
    let client = HcaClient::new_mock(
        "https://auth.example.test".to_string(),
        "my-client-id".to_string(),
        "my-client-secret".to_string(),
        "http://localhost:8000/oauth/callback".to_string(),
    );
    let url = client.auth_url("st4te").unwrap();
    assert_eq!(url, "http://localhost:8000/oauth/callback?code=MOCKCODE&state=st4te");
}

#[test]
fn live_auth_url_points_at_the_authorize_endpoint() {
    let url = live_client().auth_url("st4te").unwrap();
    assert!(url.starts_with("https://auth.example.test/oauth/authorize?"));
    assert!(url.contains("response_type=code"));
    assert!(url.contains("client_id=my-client-id"));
    assert!(url.contains("state=st4te"));
    assert!(url.contains("redirect_uri="));
    assert!(url.contains("scope=identity"));
    // the client secret never appears in the user-facing URL
    assert!(!url.contains("my-client-secret"));
}

#[test]
fn start_hca_auth_draws_a_fresh_state() {
    let client = live_client();
    let first = start_hca_auth(&client).unwrap();
    let second = start_hca_auth(&client).unwrap();
    assert!(first.starts_with("https://auth.example.test/oauth/authorize?"));
    assert_ne!(first, second);
}

#[test]
fn mock_exchange_and_profile_are_fixed() {
    let client = HcaClient::new_mock(
        "h".to_string(),
        "i".to_string(),
        "s".to_string(),
        "c".to_string(),
    );
    let (access, refresh) = client.mock_exchange_code();
    assert_eq!(access, "mock_access_token");
    assert_eq!(refresh.as_deref(), Some("mock_refresh"));
    let p = client.mock_fetch_me();
    assert_eq!(p.id, "mock-id");
    assert_eq!(p.email.as_deref(), Some("dev@example.com"));
    assert_eq!(p.slack_id.as_deref(), Some("DEVSLACK"));
    assert_eq!(p.display_name.as_deref(), Some("Dev User"));
}

#[test]
fn unusable_host_fails_url_construction() {
    let client = HcaClient::new(
        "not a url at all".to_string(),
        "id".to_string(),
        "secret".to_string(),
        "http://localhost:8000/oauth/callback".to_string(),
    );
    assert!(client.auth_url("st").is_err());
}
