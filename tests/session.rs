use video_host::error::AuthError;
use video_host::provider::{Provider, ProviderConfig, Providers};
use video_host::session::{
    begin_callback, begin_logout, begin_validation, finish_callback, finish_validation, login,
    logout_revoked, logout_validated, me_response, CookieOp, IdentityAnswer, LogoutStep,
    SessionCookies,
};
use video_host::users::{get_user_by_email, insert_user, UserDirectory};

fn answer(status: u16, email: &str) -> Option<IdentityAnswer> {
    Some(IdentityAnswer {
        status,
        body: format!("{{\"sub\": \"9\", \"email\": \"{}\", \"email_verified\": true, \"verified\": true}}", email),
    })
}

fn cookies(oauth: &str, token: &str, user_id: &str) -> SessionCookies {
    SessionCookies {
        oauth: Some(oauth.to_string()),
        token: Some(token.to_string()),
        user_id: Some(user_id.to_string()),
    }
}

fn assigned(op: &CookieOp) -> Option<String> {
    match op {
        CookieOp::Assign(v) => Some(v.clone()),
        _ => None,
    }
}

fn providers() -> Providers {
    Providers {
        google: Some(
            ProviderConfig::new(Provider::Google, "gid", "gsecret", "https://videos.example.com").unwrap(),
        ),
        discord: None,
        hogbisz_userinfo_url: Some("https://id.example.org/userinfo".to_string()),
    }
}

fn no_hogbisz() -> Providers {
    Providers { google: None, discord: None, hogbisz_userinfo_url: None }
}

#[test]
fn callback_creates_user_and_sets_cookies() {
    let mut dir = UserDirectory::new();
    let out = finish_callback(&mut dir, &providers(), Provider::Google, Ok("tok-1".to_string()), answer(200, "a@x.com"));
    assert_eq!(out.redirect, "/");
    let user = out.user.unwrap();
    assert_eq!(user.email, "a@x.com");
    assert_eq!(user.displayname, "a@x.com");
    assert_eq!(assigned(&out.cookies.user_id), Some(user.user_id.clone()));
    assert_eq!(assigned(&out.cookies.oauth), Some("google".to_string()));
    assert_eq!(assigned(&out.cookies.token), Some("tok-1".to_string()));
    assert!(matches!(out.cookies.state, CookieOp::Remove));
    assert_eq!(dir.len(), 1);
}

#[test]
fn second_login_with_same_email_reuses_user() {
    let mut dir = UserDirectory::new();
    let first = finish_callback(&mut dir, &providers(), Provider::Google, Ok("t1".to_string()), answer(200, "a@x.com"));
    let second = finish_callback(&mut dir, &providers(), Provider::Discord, Ok("t2".to_string()), answer(200, "a@x.com"));
    assert_eq!(first.user.unwrap().user_id, second.user.as_ref().unwrap().user_id);
    assert_eq!(assigned(&second.cookies.oauth), Some("discord".to_string()));
    assert_eq!(dir.len(), 1);
}

#[test]
fn rejected_code_creates_nothing() {
    let mut dir = UserDirectory::new();
    let out = finish_callback(&mut dir, &providers(), Provider::Google, Err(AuthError::ExchangeFailed), None);
    assert_eq!(out.redirect, "/login");
    assert_eq!(out.user.err(), Some(AuthError::ExchangeFailed));
    assert!(matches!(out.cookies.user_id, CookieOp::Keep));
    assert!(matches!(out.cookies.oauth, CookieOp::Keep));
    assert!(matches!(out.cookies.token, CookieOp::Keep));
    assert_eq!(dir.len(), 0);
}

#[test]
fn failed_identity_fetch_creates_nothing() {
    let mut dir = UserDirectory::new();
    let out = finish_callback(&mut dir, &providers(), Provider::Google, Ok("tok".to_string()), answer(500, "a@x.com"));
    assert_eq!(out.redirect, "/login");
    assert_eq!(out.user.err(), Some(AuthError::IdentityFetchFailed));
    assert!(matches!(out.cookies.token, CookieOp::Keep));
    assert_eq!(dir.len(), 0);
    let out = finish_callback(&mut dir, &providers(), Provider::Discord, Ok("tok".to_string()), None);
    assert_eq!(out.user.err(), Some(AuthError::IdentityFetchFailed));
    let out = finish_callback(&mut dir, &no_hogbisz(), Provider::Hogbisz, Ok("tok".to_string()), answer(200, "a@x.com"));
    assert_eq!(out.user.err(), Some(AuthError::IdentityFetchFailed));
    assert_eq!(dir.len(), 0);
}

#[test]
fn callback_state_must_match() {
    assert_eq!(begin_callback("google", "s1", Some("s1")), Ok(Provider::Google));
    assert_eq!(begin_callback("discord", "s1", Some("s2")), Err(AuthError::StateMismatch));
    assert_eq!(begin_callback("discord", "s1", None), Err(AuthError::StateMismatch));
    assert_eq!(begin_callback("github", "s1", Some("s1")), Err(AuthError::UnsupportedProvider));
}

#[test]
fn login_redirects_to_provider_with_state_cookie() {
    let out = login(&providers(), "google");
    let state = assigned(&out.cookies.state).unwrap();
    assert_eq!(state.len(), 22);
    assert!(out.redirect.starts_with("https://accounts.google.com/o/oauth2/v2/auth?"));
    assert!(out.redirect.contains(&format!("state={}", state)));
    assert!(matches!(out.cookies.user_id, CookieOp::Keep));
}

#[test]
fn login_with_unknown_or_unconfigured_provider_fails() {
    let out = login(&providers(), "github");
    assert_eq!(out.redirect, "/login");
    assert!(matches!(out.cookies.state, CookieOp::Keep));
    let out = login(&providers(), "discord");
    assert_eq!(out.redirect, "/login");
    let out = login(&providers(), "hogbisz");
    assert_eq!(out.redirect, "/login");
}

#[test]
fn unsupported_provider_fails_closed_without_a_request() {
    let r = begin_validation(&providers(), &cookies("github", "tok", "ID"));
    assert_eq!(r.err(), Some(AuthError::UnsupportedProvider));
    let r = begin_validation(&providers(), &cookies("", "tok", "ID"));
    assert_eq!(r.err(), Some(AuthError::UnsupportedProvider));
}

#[test]
fn missing_cookie_is_no_session() {
    let mut c = cookies("google", "tok", "ID");
    c.token = None;
    assert_eq!(begin_validation(&providers(), &c).err(), Some(AuthError::NoSession));
    let mut c = cookies("google", "tok", "ID");
    c.user_id = None;
    assert_eq!(begin_validation(&providers(), &c).err(), Some(AuthError::NoSession));
}

#[test]
fn hogbisz_sessions_are_checked_at_its_identity_endpoint() {
    let mut dir = UserDirectory::new();
    let out = finish_callback(&mut dir, &providers(), Provider::Hogbisz, Ok("htok".to_string()), answer(200, "h@x.com"));
    assert_eq!(out.redirect, "/");
    assert_eq!(assigned(&out.cookies.oauth), Some("hogbisz".to_string()));
    let user = out.user.unwrap();
    let pending = begin_validation(&providers(), &cookies("hogbisz", "htok", &user.user_id)).unwrap();
    assert_eq!(pending.request.url, "https://id.example.org/userinfo");
    assert_eq!(pending.request.bearer, Some("htok".to_string()));
    assert!(finish_validation(&dir, &pending, answer(200, "h@x.com")).is_ok());
    assert_eq!(
        finish_validation(&dir, &pending, answer(200, "other@x.com")).err(),
        Some(AuthError::ValidationFailed)
    );
}

#[test]
fn hogbisz_without_identity_endpoint_fails_closed() {
    let r = begin_validation(&no_hogbisz(), &cookies("hogbisz", "tok", "ID"));
    assert_eq!(r.err(), Some(AuthError::IdentityFetchFailed));
}

#[test]
fn unverified_email_does_not_sign_in() {
    let mut dir = UserDirectory::new();
    let body = "{\"email\": \"a@x.com\", \"email_verified\": false}".to_string();
    let out = finish_callback(&mut dir, &providers(), Provider::Google, Ok("t".to_string()), Some(IdentityAnswer { status: 200, body }));
    assert_eq!(out.redirect, "/login");
    assert_eq!(out.user.err(), Some(AuthError::IdentityFetchFailed));
    assert!(matches!(out.cookies.user_id, CookieOp::Keep));
    assert_eq!(dir.len(), 0);
}

#[test]
fn valid_iff_identity_email_matches_exactly() {
    let mut dir = UserDirectory::new();
    let u = insert_user(&mut dir, "a@x.com").unwrap();
    let pending = begin_validation(&providers(), &cookies("google", "tok", &u.user_id)).unwrap();
    assert_eq!(pending.provider, Provider::Google);
    assert_eq!(pending.request.url, "https://www.googleapis.com/oauth2/v3/userinfo?access_token=tok");
    let ok = finish_validation(&dir, &pending, answer(200, "a@x.com")).unwrap();
    assert_eq!(ok.user_id, u.user_id);
    assert_eq!(
        finish_validation(&dir, &pending, answer(200, "A@x.com")).err(),
        Some(AuthError::ValidationFailed)
    );
    assert_eq!(
        finish_validation(&dir, &pending, answer(401, "a@x.com")).err(),
        Some(AuthError::IdentityFetchFailed)
    );
    assert_eq!(finish_validation(&dir, &pending, None).err(), Some(AuthError::IdentityFetchFailed));
    let stranger = begin_validation(&providers(), &cookies("google", "tok", "NOSUCHUSER")).unwrap();
    assert_eq!(
        finish_validation(&dir, &stranger, answer(200, "a@x.com")).err(),
        Some(AuthError::UserLookupFailed)
    );
}

#[test]
fn me_with_forged_user_id_is_unauthorized() {
    let mut dir = UserDirectory::new();
    insert_user(&mut dir, "a@x.com").unwrap();
    let victim = insert_user(&mut dir, "b@y.com").unwrap();
    let pending = begin_validation(&providers(), &cookies("discord", "a-token", &victim.user_id)).unwrap();
    assert_eq!(pending.request.bearer, Some("a-token".to_string()));
    let r = me_response(finish_validation(&dir, &pending, answer(200, "a@x.com")));
    assert_eq!(r.status, 401);
    assert_eq!(r.message, "Unauthorized");
    assert!(r.user.is_none());
}

#[test]
fn me_with_valid_session_returns_user() {
    let mut dir = UserDirectory::new();
    let u = insert_user(&mut dir, "a@x.com").unwrap();
    let pending = begin_validation(&providers(), &cookies("google", "tok", &u.user_id)).unwrap();
    let r = me_response(finish_validation(&dir, &pending, answer(200, "a@x.com")));
    assert_eq!(r.status, 200);
    assert_eq!(r.message, "OK");
    assert_eq!(r.user.unwrap().email, "a@x.com");
}

fn cleared(step: &LogoutStep) -> bool {
    match step {
        LogoutStep::Done(o) => {
            matches!(o.cookies.user_id, CookieOp::Remove)
                && matches!(o.cookies.oauth, CookieOp::Remove)
                && matches!(o.cookies.token, CookieOp::Remove)
        }
        _ => false,
    }
}

#[test]
fn logout_clears_cookies_even_when_revocation_fails() {
    let mut dir = UserDirectory::new();
    let u = insert_user(&mut dir, "a@x.com").unwrap();
    let pending = match begin_logout(&providers(), &cookies("google", "tok", &u.user_id)) {
        LogoutStep::Validate(p) => p,
        _ => panic!("expected a session check"),
    };
    let token = match logout_validated(&dir, &pending, answer(200, "a@x.com")) {
        LogoutStep::Revoke { provider, token } => {
            assert_eq!(provider, Provider::Google);
            token
        }
        _ => panic!("expected a revocation"),
    };
    assert_eq!(token, "tok");
    let failed = logout_revoked(false);
    assert!(!failed.logged_out);
    assert_eq!(failed.redirect, "/?logout=false");
    assert!(matches!(failed.cookies.user_id, CookieOp::Remove));
    assert!(matches!(failed.cookies.oauth, CookieOp::Remove));
    assert!(matches!(failed.cookies.token, CookieOp::Remove));
    let done = logout_revoked(true);
    assert!(done.logged_out);
    assert_eq!(done.redirect, "/?logout=true");
    assert!(matches!(done.cookies.token, CookieOp::Remove));
}

#[test]
fn logout_without_a_valid_session_still_clears_cookies() {
    let mut dir = UserDirectory::new();
    let u = insert_user(&mut dir, "a@x.com").unwrap();
    let mut partial = cookies("google", "tok", &u.user_id);
    partial.oauth = None;
    assert!(cleared(&begin_logout(&providers(), &partial)));
    assert!(cleared(&begin_logout(&providers(), &cookies("github", "tok", &u.user_id))));
    let pending = match begin_logout(&providers(), &cookies("google", "tok", &u.user_id)) {
        LogoutStep::Validate(p) => p,
        _ => panic!("expected a session check"),
    };
    let step = logout_validated(&dir, &pending, answer(200, "someone@else.com"));
    assert!(cleared(&step));
    if let LogoutStep::Done(o) = step {
        assert_eq!(o.redirect, "/?logout=false");
    }
}

#[test]
fn identity_linking_is_by_email_across_providers() {
    let mut dir = UserDirectory::new();
    finish_callback(&mut dir, &providers(), Provider::Google, Ok("t1".to_string()), answer(200, "a@x.com"));
    let id = get_user_by_email(&dir, "a@x.com").unwrap().user_id.clone();
    let pending = begin_validation(&providers(), &cookies("discord", "t2", &id)).unwrap();
    assert!(finish_validation(&dir, &pending, answer(200, "a@x.com")).is_ok());
}

#[test]
fn me_without_cookies_is_unauthorized() {
    let mut c = cookies("google", "tok", "ID");
    c.oauth = None;
    let r = me_response(begin_validation(&providers(), &c).map(|_| unreachable!()));
    assert_eq!(r.status, 401);
    assert_eq!(r.message, "Unauthorized");
    assert!(r.user.is_none());
}
