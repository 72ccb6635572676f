//! The identity providers this service signs users in with, and their
//! configuration.
use vstd::prelude::*;
use vstd::string::*;

use oauth2::basic::BasicClient;
use oauth2::{AuthUrl, ClientId, CsrfToken, RedirectUrl, Scope};

use crate::error::AuthError;
use crate::text::str_eq;

verus! {

/// A third-party identity service.
#[derive(Debug, Clone, Copy, PartialEq, Eq, Structural)]
pub enum Provider {
    Google,
    Discord,
    Hogbisz,
}

/// Marker for the Hogbisz provider, whose sign-in is driven by a
/// configuration of its own rather than by a [`ProviderConfig`].
pub struct Hogbisz;

pub const GOOGLE_NAME: &'static str = "google";

pub const DISCORD_NAME: &'static str = "discord";

pub const HOGBISZ_NAME: &'static str = "hogbisz";

pub const GOOGLE_AUTH_URL: &'static str = "https://accounts.google.com/o/oauth2/v2/auth";

pub const GOOGLE_TOKEN_URL: &'static str = "https://www.googleapis.com/oauth2/v3/token";

pub const GOOGLE_REVOCATION_URL: &'static str = "https://oauth2.googleapis.com/revoke";

pub const GOOGLE_REDIRECT_PATH: &'static str = "/api/auth/google";

pub const GOOGLE_EMAIL_SCOPE: &'static str = "https://www.googleapis.com/auth/userinfo.email";

pub const GOOGLE_USERINFO_URL: &'static str = "https://www.googleapis.com/oauth2/v3/userinfo?access_token=";

pub const DISCORD_AUTH_URL: &'static str = "https://discordapp.com/api/oauth2/authorize";

pub const DISCORD_TOKEN_URL: &'static str = "https://discordapp.com/api/oauth2/token";

pub const DISCORD_REVOCATION_URL: &'static str = "https://discordapp.com/api/oauth2/token/revoke";

pub const DISCORD_REDIRECT_PATH: &'static str = "/api/auth/discord";

pub const DISCORD_IDENTIFY_SCOPE: &'static str = "identify";

pub const DISCORD_EMAIL_SCOPE: &'static str = "email";

pub const DISCORD_USERINFO_URL: &'static str = "https://discordapp.com/api/users/@me";

impl Provider {
    /// The name by which cookies and routes refer to the provider.
    pub open spec fn spec_name(self) -> Seq<char> {
        match self {
            Provider::Google => GOOGLE_NAME@,
            Provider::Discord => DISCORD_NAME@,
            Provider::Hogbisz => HOGBISZ_NAME@,
        }
    }

    /// The name by which cookies and routes refer to the provider.
    pub fn name(&self) -> (r: &'static str)
        ensures
            r@ == self.spec_name(),
    {
        match self {
            Provider::Google => GOOGLE_NAME,
            Provider::Discord => DISCORD_NAME,
            Provider::Hogbisz => HOGBISZ_NAME,
        }
    }

    /// The provider that answers to a name, if any: names are matched exactly.
    pub open spec fn spec_from_name(name: Seq<char>) -> Option<Provider> {
        if name == GOOGLE_NAME@ {
            Some(Provider::Google)
        } else if name == DISCORD_NAME@ {
            Some(Provider::Discord)
        } else if name == HOGBISZ_NAME@ {
            Some(Provider::Hogbisz)
        } else {
            None
        }
    }

    /// The provider that answers to a name, if any: names are matched exactly.
    pub fn from_name(name: &str) -> (r: Option<Provider>)
        ensures
            r == Provider::spec_from_name(name@),
    {
        if str_eq(name, GOOGLE_NAME) {
            Some(Provider::Google)
        } else if str_eq(name, DISCORD_NAME) {
            Some(Provider::Discord)
        } else if str_eq(name, HOGBISZ_NAME) {
            Some(Provider::Hogbisz)
        } else {
            None
        }
    }
}

/// The endpoints of a provider that is configured by a [`ProviderConfig`]:
/// authorization, token and revocation URLs, and the path of the redirect
/// URL under the service's base URL.
pub struct Endpoints {
    pub auth_url: &'static str,
    pub token_url: &'static str,
    pub revocation_url: &'static str,
    pub redirect_path: &'static str,
}

/// The endpoints of a provider, if a [`ProviderConfig`] configures it.
pub open spec fn spec_endpoints(p: Provider) -> Option<(Seq<char>, Seq<char>, Seq<char>, Seq<char>)> {
    match p {
        Provider::Google => Some(
            (GOOGLE_AUTH_URL@, GOOGLE_TOKEN_URL@, GOOGLE_REVOCATION_URL@, GOOGLE_REDIRECT_PATH@),
        ),
        Provider::Discord => Some(
            (DISCORD_AUTH_URL@, DISCORD_TOKEN_URL@, DISCORD_REVOCATION_URL@, DISCORD_REDIRECT_PATH@),
        ),
        Provider::Hogbisz => None,
    }
}

/// The scopes asked for at login.
pub open spec fn spec_scopes(p: Provider) -> Seq<Seq<char>> {
    match p {
        Provider::Google => seq![GOOGLE_EMAIL_SCOPE@],
        Provider::Discord => seq![DISCORD_IDENTIFY_SCOPE@, DISCORD_EMAIL_SCOPE@],
        Provider::Hogbisz => seq![],
    }
}

/// The endpoints of a provider, if a [`ProviderConfig`] configures it.
pub fn endpoints(p: Provider) -> (r: Option<Endpoints>)
    ensures
        match r {
            Some(e) => spec_endpoints(p) == Some(
                (e.auth_url@, e.token_url@, e.revocation_url@, e.redirect_path@),
            ),
            None => spec_endpoints(p) is None,
        },
{
    match p {
        Provider::Google => Some(
            Endpoints {
                auth_url: GOOGLE_AUTH_URL,
                token_url: GOOGLE_TOKEN_URL,
                revocation_url: GOOGLE_REVOCATION_URL,
                redirect_path: GOOGLE_REDIRECT_PATH,
            },
        ),
        Provider::Discord => Some(
            Endpoints {
                auth_url: DISCORD_AUTH_URL,
                token_url: DISCORD_TOKEN_URL,
                revocation_url: DISCORD_REVOCATION_URL,
                redirect_path: DISCORD_REDIRECT_PATH,
            },
        ),
        Provider::Hogbisz => None,
    }
}

/// The scopes asked for at login.
pub fn scopes(p: Provider) -> (r: Vec<String>)
    ensures
        views(r@) == spec_scopes(p),
{
    let mut r: Vec<String> = Vec::new();
    match p {
        Provider::Google => {
            r.push(GOOGLE_EMAIL_SCOPE.to_owned());
        },
        Provider::Discord => {
            r.push(DISCORD_IDENTIFY_SCOPE.to_owned());
            r.push(DISCORD_EMAIL_SCOPE.to_owned());
        },
        Provider::Hogbisz => {},
    }
    assert(views(r@) =~= spec_scopes(p));
    r
}

/// Whether a text parses as an absolute URL.
pub uninterp spec fn is_valid_url(s: Seq<char>) -> bool;

/// The authorization URL that the OAuth2 client builds from its endpoint,
/// client id, redirect URL, requested scopes and state.
pub uninterp spec fn authorize_url_of(
    auth_url: Seq<char>,
    client_id: Seq<char>,
    redirect_url: Seq<char>,
    scopes: Seq<Seq<char>>,
    state: Seq<char>,
) -> Seq<char>;

/// The characters of each string, in order.
pub open spec fn views(v: Seq<String>) -> Seq<Seq<char>> {
    v.map_values(|s: String| s@)
}

/// How the service talks to one provider: its credentials and endpoints.
/// Assembled once at startup and not changed afterwards.
pub struct ProviderConfig {
    pub provider: Provider,
    pub client_id: String,
    pub client_secret: String,
    pub auth_url: String,
    pub token_url: String,
    pub redirect_url: String,
    pub revocation_url: String,
    pub scopes: Vec<String>,
}

impl ProviderConfig {
    /// Whether every endpoint of the configuration is a URL.
    pub open spec fn urls_valid(&self) -> bool {
        &&& is_valid_url(self.auth_url@)
        &&& is_valid_url(self.token_url@)
        &&& is_valid_url(self.redirect_url@)
        &&& is_valid_url(self.revocation_url@)
    }

    /// The configuration of a provider with the given credentials, whose
    /// redirect URL is the provider's callback path under `base_url`.
    pub open spec fn spec_configured(
        self,
        p: Provider,
        client_id: Seq<char>,
        client_secret: Seq<char>,
        base_url: Seq<char>,
    ) -> bool {
        match spec_endpoints(p) {
            Some((auth, token, revocation, path)) => {
                &&& self.provider == p
                &&& self.client_id@ == client_id
                &&& self.client_secret@ == client_secret
                &&& self.auth_url@ == auth
                &&& self.token_url@ == token
                &&& self.revocation_url@ == revocation
                &&& self.redirect_url@ == base_url + path
                &&& views(self.scopes@) == spec_scopes(p)
            },
            None => false,
        }
    }

    /// Builds the configuration of a provider from its credentials and the
    /// service's base URL. Fails with a configuration error for a provider
    /// that is not configured this way, or when an endpoint is not a URL.
    pub fn new(p: Provider, client_id: &str, client_secret: &str, base_url: &str) -> (r: Result<
        ProviderConfig,
        AuthError,
    >)
        ensures
            match r {
                Ok(c) => c.spec_configured(p, client_id@, client_secret@, base_url@) && c.urls_valid(),
                Err(e) => e == AuthError::ConfigurationError && forall|c: ProviderConfig|
                    #[trigger] c.spec_configured(p, client_id@, client_secret@, base_url@)
                        ==> !c.urls_valid(),
            },
    {
        let e = match endpoints(p) {
            Some(e) => e,
            None => {
                return Err(AuthError::ConfigurationError);
            },
        };
        let redirect_url = base_url.to_owned().concat(e.redirect_path);
        let c = ProviderConfig {
            provider: p,
            client_id: client_id.to_owned(),
            client_secret: client_secret.to_owned(),
            auth_url: e.auth_url.to_owned(),
            token_url: e.token_url.to_owned(),
            redirect_url,
            revocation_url: e.revocation_url.to_owned(),
            scopes: scopes(p),
        };
        if url_parses(c.auth_url.as_str()) && url_parses(c.token_url.as_str()) && url_parses(
            c.redirect_url.as_str(),
        ) && url_parses(c.revocation_url.as_str()) {
            Ok(c)
        } else {
            Err(AuthError::ConfigurationError)
        }
    }
}

/// A login that has been started: the URL the browser is sent to, and the
/// state value the provider must hand back.
pub struct AuthorizationRequest {
    pub provider: Provider,
    pub url: String,
    pub state: String,
}

/// Builds the provider's authorization URL with a fresh random state. Fails
/// with a configuration error exactly when an endpoint is not a URL.
pub fn generate_oauth_redirect(cfg: &ProviderConfig) -> (r: Result<AuthorizationRequest, AuthError>)
    ensures
        r is Ok <==> cfg.urls_valid(),
        r is Err ==> r == Err::<AuthorizationRequest, AuthError>(AuthError::ConfigurationError),
        r matches Ok(req) ==> {
            &&& req.provider == cfg.provider
            &&& req.state@.len() == 22
            &&& req.url@ == authorize_url_of(
                cfg.auth_url@,
                cfg.client_id@,
                cfg.redirect_url@,
                views(cfg.scopes@),
                req.state@,
            )
        },
{
    if !url_parses(cfg.token_url.as_str()) || !url_parses(cfg.revocation_url.as_str()) {
        return Err(AuthError::ConfigurationError);
    }
    let state = random_state();
    match authorize_url(
        cfg.auth_url.as_str(),
        cfg.client_id.as_str(),
        cfg.redirect_url.as_str(),
        &cfg.scopes,
        state.as_str(),
    ) {
        Some(url) => Ok(AuthorizationRequest { provider: cfg.provider, url, state }),
        None => Err(AuthError::ConfigurationError),
    }
}

/// The configured providers, looked up by name. Hogbisz signs users in
/// through a configuration of its own; here it is known by the address of
/// its identity endpoint, which takes the access token as a bearer token.
pub struct Providers {
    pub google: Option<ProviderConfig>,
    pub discord: Option<ProviderConfig>,
    pub hogbisz_userinfo_url: Option<String>,
}

impl Providers {
    /// The configuration that serves a provider.
    pub open spec fn spec_config(&self, p: Provider) -> Option<ProviderConfig> {
        match p {
            Provider::Google => self.google,
            Provider::Discord => self.discord,
            Provider::Hogbisz => None,
        }
    }

    /// The configuration that serves a provider.
    pub fn config(&self, p: Provider) -> (r: Option<&ProviderConfig>)
        ensures
            match r {
                Some(c) => self.spec_config(p) == Some(*c),
                None => self.spec_config(p) is None,
            },
    {
        match p {
            Provider::Google => self.google.as_ref(),
            Provider::Discord => self.discord.as_ref(),
            Provider::Hogbisz => None,
        }
    }
}

/// How to ask a provider who a token belongs to: the URL to fetch, and the
/// bearer token to send with it, if the token does not travel in the URL.
pub struct IdentityRequest {
    pub url: String,
    pub bearer: Option<String>,
}

/// The identity lookup for a token, if the provider has an identity
/// endpoint: Google takes the token in the URL, Discord and Hogbisz as a
/// bearer token.
pub open spec fn spec_identity_request(providers: Providers, p: Provider, token: Seq<char>) -> Option<
    (Seq<char>, Option<Seq<char>>),
> {
    match p {
        Provider::Google => Some((GOOGLE_USERINFO_URL@ + token, None)),
        Provider::Discord => Some((DISCORD_USERINFO_URL@, Some(token))),
        Provider::Hogbisz => match providers.hogbisz_userinfo_url {
            Some(u) => Some((u@, Some(token))),
            None => None,
        },
    }
}

/// The identity lookup for a token, if the provider has an identity endpoint.
pub fn identity_request(providers: &Providers, p: Provider, token: &str) -> (r: Option<
    IdentityRequest,
>)
    ensures
        match r {
            Some(req) => spec_identity_request(*providers, p, token@) == Some(
                (
                    req.url@,
                    match req.bearer {
                        Some(b) => Some(b@),
                        None => None::<Seq<char>>,
                    },
                ),
            ),
            None => spec_identity_request(*providers, p, token@) is None,
        },
{
    match p {
        Provider::Google => Some(
            IdentityRequest { url: GOOGLE_USERINFO_URL.to_owned().concat(token), bearer: None },
        ),
        Provider::Discord => Some(
            IdentityRequest {
                url: DISCORD_USERINFO_URL.to_owned(),
                bearer: Some(token.to_owned()),
            },
        ),
        Provider::Hogbisz => match &providers.hogbisz_userinfo_url {
            Some(u) => Some(IdentityRequest { url: u.clone(), bearer: Some(token.to_owned()) }),
            None => None,
        },
    }
}

/// Relies on `url::Url::parse`, as oauth2 re-exports it: whether the text
/// is an absolute URL.
#[verifier::external_body]
fn url_parses(s: &str) -> (r: bool)
    ensures
        r == is_valid_url(s@),
{
    oauth2::url::Url::parse(s).is_ok()
}

/// Relies on oauth2's `Client::authorize_url` and `AuthorizationRequest::url`:
/// the endpoint and redirect URL are parsed with `Url::parse`, and the URL
/// is built from the given values alone.
#[verifier::external_body]
fn authorize_url(
    auth_url: &str,
    client_id: &str,
    redirect_url: &str,
    scopes: &Vec<String>,
    state: &str,
) -> (r: Option<String>)
    ensures
        r.is_some() == (is_valid_url(auth_url@) && is_valid_url(redirect_url@)),
        r.is_some() ==> r.unwrap()@ == authorize_url_of(auth_url@, client_id@, redirect_url@, views(scopes@), state@),
{
    let auth = AuthUrl::new(auth_url.to_string()).ok()?;
    let redirect = RedirectUrl::new(redirect_url.to_string()).ok()?;
    let client = BasicClient::new(ClientId::new(client_id.to_string()), None, auth, None)
        .set_redirect_uri(redirect);
    let request = client.authorize_url(|| CsrfToken::new(state.to_string()));
    let (url, _) = request.add_scopes(scopes.iter().map(|s| Scope::new(s.clone()))).url();
    Some(url.to_string())
}

/// Relies on oauth2's `CsrfToken::new_random`: sixteen random bytes in
/// URL-safe base64 without padding, which is 22 characters.
#[verifier::external_body]
fn random_state() -> (r: String)
    ensures
        r@.len() == 22,
{
    CsrfToken::new_random().secret().clone()
}

} // verus!
