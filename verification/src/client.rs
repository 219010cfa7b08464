//! The OAuth exchange client's configuration and its compute-only parts:
//! authorization-URL construction and the deterministic mock variant used
//! for offline testing. The live HTTP calls (code exchange, profile fetch)
//! happen outside this library and hand their plain results to the flows.

use vstd::prelude::*;

use crate::errors::UrlError;
use crate::vault::b64_of;

verus! {

/// The profile the provider reports for the authenticated end user.
pub struct HcaIdentity {
    pub id: String,
    pub email: Option<String>,
    pub slack_id: Option<String>,
    pub display_name: Option<String>,
}

/// Configuration for the upstream identity provider. The deterministic mock
/// variant is selected once at construction and never branched on inside
/// business logic.
pub struct HcaClient {
    pub host: String,
    pub client_id: String,
    pub client_secret: String,
    pub callback_url: String,
    pub mock: bool,
}

/// The authorization URL the oauth2 client builds for an authorize
/// endpoint, client id, redirect URI, state value and scope; nothing when
/// one of the URLs does not parse. The result depends on these inputs
/// alone.
pub uninterp spec fn authorize_url_of(
    authorize_endpoint: Seq<char>,
    client_id: Seq<char>,
    redirect: Seq<char>,
    state: Seq<char>,
    scope: Seq<char>,
) -> Option<Seq<char>>;

/// Relies on oauth2 (BasicClient::authorize_url): builds the provider's
/// authorization URL embedding response type, client id, state, redirect
/// URI and scope.
#[verifier::external_body]
fn oauth_authorize_url(
    authorize_endpoint: &str,
    client_id: &str,
    redirect: &str,
    state: &str,
    scope: &str,
) -> (r: Option<String>)
    ensures
        r matches Some(u) ==> authorize_url_of(
            authorize_endpoint@,
            client_id@,
            redirect@,
            state@,
            scope@,
        ) == Some(u@),
        r is None ==> authorize_url_of(authorize_endpoint@, client_id@, redirect@, state@, scope@)
            is None,
{
    let auth = oauth2::AuthUrl::new(authorize_endpoint.to_string()).ok()?;
    let redir = oauth2::RedirectUrl::new(redirect.to_string()).ok()?;
    let client = oauth2::basic::BasicClient::new(
        oauth2::ClientId::new(client_id.to_string()),
        None,
        auth,
        None,
    ).set_redirect_uri(redir);
    let st = state.to_string();
    let (url, _) = client.authorize_url(|| oauth2::CsrfToken::new(st)).add_scope(
        oauth2::Scope::new(scope.to_string()),
    ).url();
    Some(url.to_string())
}

/// What `auth_url` owes for a client and a state value: the mock variant's
/// fixed callback shape, or the oauth2-built authorization URL.
pub open spec fn auth_url_result(c: HcaClient, state: Seq<char>) -> Option<Seq<char>> {
    if c.mock {
        Some(c.callback_url@ + "?code=MOCKCODE&state="@ + state)
    } else {
        authorize_url_of(
            c.host@ + "/oauth/authorize"@,
            c.client_id@,
            c.callback_url@,
            state,
            "identity"@,
        )
    }
}

impl HcaClient {
    /// A live client for the given provider host and credentials.
    pub fn new(host: String, client_id: String, client_secret: String, callback_url: String) -> (r:
        HcaClient)
        ensures
            r.host == host,
            r.client_id == client_id,
            r.client_secret == client_secret,
            r.callback_url == callback_url,
            r.mock == false,
    {
        HcaClient { host, client_id, client_secret, callback_url, mock: false }
    }

    /// The deterministic mock variant, for offline integration testing.
    pub fn new_mock(
        host: String,
        client_id: String,
        client_secret: String,
        callback_url: String,
    ) -> (r: HcaClient)
        ensures
            r.host == host,
            r.client_id == client_id,
            r.client_secret == client_secret,
            r.callback_url == callback_url,
            r.mock == true,
    {
        HcaClient { host, client_id, client_secret, callback_url, mock: true }
    }

    /// Build the provider's authorization URL for a caller-supplied
    /// anti-replay state value, with this client's id, redirect URI and the
    /// fixed requested scope.
    pub fn auth_url(&self, state: &str) -> (r: Result<String, UrlError>)
        ensures
            match r {
                Ok(u) => auth_url_result(*self, state@) == Some(u@),
                Err(_) => auth_url_result(*self, state@) is None,
            },
            self.mock ==> r is Ok,
    {
        if self.mock {
            let mut u = String::from_str(self.callback_url.as_str());
            u.append("?code=MOCKCODE&state=");
            u.append(state);
            Ok(u)
        } else {
            let mut endpoint = String::from_str(self.host.as_str());
            endpoint.append("/oauth/authorize");
            match oauth_authorize_url(
                endpoint.as_str(),
                self.client_id.as_str(),
                self.callback_url.as_str(),
                state,
                "identity",
            ) {
                Some(u) => Ok(u),
                None => Err(UrlError),
            }
        }
    }

    /// The mock variant's code exchange: fixed provider tokens.
    pub fn mock_exchange_code(&self) -> (r: (String, Option<String>))
        ensures
            r.0@ == "mock_access_token"@,
            (r.1 matches Some(t) && t@ == "mock_refresh"@),
    {
        (String::from_str("mock_access_token"), Some(String::from_str("mock_refresh")))
    }

    /// The mock variant's profile fetch: a fixed, complete profile.
    pub fn mock_fetch_me(&self) -> (r: HcaIdentity)
        ensures
            r.id@ == "mock-id"@,
            (r.email matches Some(e) && e@ == "dev@example.com"@),
            (r.slack_id matches Some(s) && s@ == "DEVSLACK"@),
            (r.display_name matches Some(d) && d@ == "Dev User"@),
    {
        HcaIdentity {
            id: String::from_str("mock-id"),
            email: Some(String::from_str("dev@example.com")),
            slack_id: Some(String::from_str("DEVSLACK")),
            display_name: Some(String::from_str("Dev User")),
        }
    }
}

/// Begin a login: draw a fresh random anti-replay state — the base64 text
/// of 128 random bits — and build the authorize URL to redirect the end
/// user to.
pub fn start_hca_auth(client: &HcaClient) -> (r: Result<String, UrlError>)
    ensures
        r matches Ok(u) ==> exists|b: Seq<u8>|
            b.len() == 16 && auth_url_result(*client, #[trigger] b64_of(b)) == Some(u@),
        client.mock ==> r is Ok,
{
    let state_bytes: [u8; 16] = rand::random();
    let state_token = crate::vault::b64_encode(state_bytes.as_slice());
    let r = client.auth_url(state_token.as_str());
    proof {
        assert(state_bytes@.len() == 16);
        assert(state_token@ == b64_of(state_bytes@));
    }
    r
}

} // verus!
