use video_host::error::AuthError;
use video_host::identity::{email_field_of, parse_identity};
use video_host::provider::{identity_request, Provider, Providers};

#[test]
fn google_answer_yields_email() {
    let body = "{\n  \"sub\": \"1\",\n  \"picture\": \"p\",\n  \"email\": \"a@x.com\",\n  \"email_verified\": true\n}";
    assert_eq!(parse_identity(Provider::Google, 200, body), Ok("a@x.com".to_string()));
    assert_eq!(parse_identity(Provider::Hogbisz, 200, body), Ok("a@x.com".to_string()));
}

#[test]
fn compact_discord_answer_yields_email() {
    let body = "{\"id\":\"7\",\"username\":\"u\",\"email\":\"a@x.com\",\"verified\":true}";
    assert_eq!(parse_identity(Provider::Discord, 200, body), Ok("a@x.com".to_string()));
}

#[test]
fn email_verified_key_is_not_the_email() {
    let body = "{\"email_verified\": true, \"email\" : \"b@y.com\"}";
    assert_eq!(email_field_of(body), Some("b@y.com".to_string()));
}

#[test]
fn error_status_fails() {
    let body = "{\"email\": \"a@x.com\", \"email_verified\": true}";
    assert_eq!(parse_identity(Provider::Google, 401, body), Err(AuthError::IdentityFetchFailed));
    assert_eq!(parse_identity(Provider::Google, 500, body), Err(AuthError::IdentityFetchFailed));
    assert_eq!(parse_identity(Provider::Google, 199, body), Err(AuthError::IdentityFetchFailed));
    assert_eq!(parse_identity(Provider::Google, 299, body), Ok("a@x.com".to_string()));
}

#[test]
fn missing_email_fails() {
    assert_eq!(parse_identity(Provider::Google, 200, "{\"email_verified\": true, \"sub\": \"1\"}"), Err(AuthError::IdentityFetchFailed));
    assert_eq!(parse_identity(Provider::Google, 200, ""), Err(AuthError::IdentityFetchFailed));
}

#[test]
fn malformed_email_fails() {
    assert_eq!(parse_identity(Provider::Google, 200, "{\"email_verified\": true, \"email\": null}"), Err(AuthError::IdentityFetchFailed));
    assert_eq!(parse_identity(Provider::Google, 200, "{\"email_verified\": true, \"email\": \"\"}"), Err(AuthError::IdentityFetchFailed));
    assert_eq!(parse_identity(Provider::Google, 200, "{\"email_verified\": true, \"email\": \"a\\u0040x.com\"}"), Err(AuthError::IdentityFetchFailed));
    assert_eq!(parse_identity(Provider::Google, 200, "{\"email_verified\": true, \"email\": \"a@x.com"), Err(AuthError::IdentityFetchFailed));
    assert_eq!(parse_identity(Provider::Google, 200, "{\"email_verified\": true, \"email\" \"a@x.com\"}"), Err(AuthError::IdentityFetchFailed));
}

#[test]
fn email_as_a_value_is_not_a_key() {
    let body = "{\"kind\":\"email\",\"email\":\"c@z.org\"}";
    assert_eq!(email_field_of(body), Some("c@z.org".to_string()));
}

#[test]
fn identity_requests_per_provider() {
    let none = Providers { google: None, discord: None, hogbisz_userinfo_url: None };
    let hog = Providers { google: None, discord: None, hogbisz_userinfo_url: Some("https://id.example.org/userinfo".to_string()) };
    let g = identity_request(&none, Provider::Google, "tok").unwrap();
    assert_eq!(g.url, "https://www.googleapis.com/oauth2/v3/userinfo?access_token=tok");
    assert_eq!(g.bearer, None);
    let d = identity_request(&none, Provider::Discord, "tok").unwrap();
    assert_eq!(d.url, "https://discordapp.com/api/users/@me");
    assert_eq!(d.bearer, Some("tok".to_string()));
    assert!(identity_request(&none, Provider::Hogbisz, "tok").is_none());
    let h = identity_request(&hog, Provider::Hogbisz, "tok").unwrap();
    assert_eq!(h.url, "https://id.example.org/userinfo");
    assert_eq!(h.bearer, Some("tok".to_string()));
}

#[test]
fn unverified_email_fails() {
    let google = "{\"email\": \"a@x.com\", \"email_verified\": false}";
    assert_eq!(parse_identity(Provider::Google, 200, google), Err(AuthError::IdentityFetchFailed));
    let no_flag = "{\"email\": \"a@x.com\"}";
    assert_eq!(parse_identity(Provider::Google, 200, no_flag), Err(AuthError::IdentityFetchFailed));
    assert_eq!(parse_identity(Provider::Hogbisz, 200, no_flag), Err(AuthError::IdentityFetchFailed));
    let discord = "{\"email\":\"a@x.com\",\"verified\":false}";
    assert_eq!(parse_identity(Provider::Discord, 200, discord), Err(AuthError::IdentityFetchFailed));
}

#[test]
fn each_provider_has_its_own_verified_flag() {
    let google_style = "{\"email\": \"a@x.com\", \"email_verified\": true}";
    assert_eq!(parse_identity(Provider::Discord, 200, google_style), Err(AuthError::IdentityFetchFailed));
    let discord_style = "{\"email\":\"a@x.com\",\"verified\":true}";
    assert_eq!(parse_identity(Provider::Google, 200, discord_style), Err(AuthError::IdentityFetchFailed));
}

#[test]
fn error_messages() {
    assert_eq!(AuthError::UnsupportedProvider.message(), "the provider is not supported");
    assert_eq!(AuthError::NoSession.message(), "there is no session");
}
