use video_host::error::AuthError;
use video_host::provider::{generate_oauth_redirect, Provider, ProviderConfig};

fn google() -> ProviderConfig {
    ProviderConfig::new(Provider::Google, "client-1", "secret-1", "https://videos.example.com").unwrap()
}

#[test]
fn provider_names_match_exactly() {
    assert_eq!(Provider::from_name("google"), Some(Provider::Google));
    assert_eq!(Provider::from_name("discord"), Some(Provider::Discord));
    assert_eq!(Provider::from_name("hogbisz"), Some(Provider::Hogbisz));
    assert_eq!(Provider::from_name("Google"), None);
    assert_eq!(Provider::from_name("github"), None);
    assert_eq!(Provider::from_name(""), None);
    assert_eq!(Provider::Discord.name(), "discord");
}

#[test]
fn google_configuration() {
    let c = google();
    assert_eq!(c.provider, Provider::Google);
    assert_eq!(c.auth_url, "https://accounts.google.com/o/oauth2/v2/auth");
    assert_eq!(c.token_url, "https://www.googleapis.com/oauth2/v3/token");
    assert_eq!(c.revocation_url, "https://oauth2.googleapis.com/revoke");
    assert_eq!(c.redirect_url, "https://videos.example.com/api/auth/google");
    assert_eq!(c.scopes, vec!["https://www.googleapis.com/auth/userinfo.email".to_string()]);
}

#[test]
fn discord_configuration() {
    let c = ProviderConfig::new(Provider::Discord, "id", "secret", "http://localhost:8000").unwrap();
    assert_eq!(c.redirect_url, "http://localhost:8000/api/auth/discord");
    assert_eq!(c.revocation_url, "https://discordapp.com/api/oauth2/token/revoke");
    assert_eq!(c.scopes, vec!["identify".to_string(), "email".to_string()]);
}

#[test]
fn malformed_base_url_is_a_configuration_error() {
    let r = ProviderConfig::new(Provider::Google, "id", "secret", "not a url");
    assert_eq!(r.err(), Some(AuthError::ConfigurationError));
}

#[test]
fn hogbisz_has_no_endpoint_configuration() {
    let r = ProviderConfig::new(Provider::Hogbisz, "id", "secret", "https://videos.example.com");
    assert_eq!(r.err(), Some(AuthError::ConfigurationError));
}

#[test]
fn authorization_url_carries_client_redirect_scope_and_state() {
    let req = generate_oauth_redirect(&google()).unwrap();
    assert_eq!(req.provider, Provider::Google);
    assert_eq!(req.state.len(), 22);
    assert!(req.url.starts_with("https://accounts.google.com/o/oauth2/v2/auth?"));
    assert!(req.url.contains("response_type=code"));
    assert!(req.url.contains("client_id=client-1"));
    assert!(req.url.contains(&format!("state={}", req.state)));
    assert!(req.url.contains("redirect_uri=https%3A%2F%2Fvideos.example.com%2Fapi%2Fauth%2Fgoogle"));
    assert!(req.url.contains("scope=https%3A%2F%2Fwww.googleapis.com%2Fauth%2Fuserinfo.email"));
    assert!(!req.url.contains("secret-1"));
}

#[test]
fn each_login_gets_a_fresh_state() {
    let a = generate_oauth_redirect(&google()).unwrap();
    let b = generate_oauth_redirect(&google()).unwrap();
    assert_ne!(a.state, b.state);
}

#[test]
fn invalid_endpoint_fails_authorization() {
    let mut c = google();
    c.auth_url = "::".to_string();
    assert_eq!(generate_oauth_redirect(&c).err(), Some(AuthError::ConfigurationError));
    let mut c = google();
    c.revocation_url = "revoke".to_string();
    assert_eq!(generate_oauth_redirect(&c).err(), Some(AuthError::ConfigurationError));
}
