//! The sign-in protocol: login, callback, per-request session checks and
//! logout, as steps between which the caller talks to the provider.
//!
//! A session is the triple of cookies `oauth` (provider name), `token`
//! (access token) and `user_id` (local user id). It is valid only while the
//! provider, asked again, says the token belongs to the email stored for
//! that user.
use vstd::prelude::*;

use crate::error::AuthError;
use crate::identity::{email_field, flag_set, identity_of, parse_identity, verified_key};
use crate::provider::{
    authorize_url_of, generate_oauth_redirect, identity_request, spec_endpoints,
    spec_identity_request, views, IdentityRequest, Provider, Providers,
};
use crate::text::str_eq;
use crate::users::{
    copy_user, find_or_insert_user, get_user_by_user_id, has_user_id, ids_exhausted,
    lemma_sign_in_idempotent, no_generated_ids,
    records_distinct, sign_in_result, user_result_view, User, UserDirectory, UserView,
};

verus! {

/// Where a failed login or callback sends the browser.
pub const FAILURE_REDIRECT: &'static str = "/login";

/// Where a completed login sends the browser.
pub const HOME_REDIRECT: &'static str = "/";

/// Where logout sends the browser when the token was revoked.
pub const LOGOUT_DONE_REDIRECT: &'static str = "/?logout=true";

/// Where logout sends the browser when there was no session to revoke.
pub const LOGOUT_NONE_REDIRECT: &'static str = "/?logout=false";

/// What happens to one cookie when a response is sent.
pub enum CookieOp {
    Keep,
    Assign(String),
    Remove,
}

/// What happens to the session cookies, and to the cookie holding the login
/// state, when a response is sent.
pub struct CookieChanges {
    pub user_id: CookieOp,
    pub oauth: CookieOp,
    /// Kept private: signed and encrypted by the caller.
    pub token: CookieOp,
    pub state: CookieOp,
}

impl CookieChanges {
    /// Whether the three session cookies are all removed.
    pub open spec fn clears_session(&self) -> bool {
        &&& self.user_id is Remove
        &&& self.oauth is Remove
        &&& self.token is Remove
    }

    /// Whether no session cookie is set or removed.
    pub open spec fn keeps_session(&self) -> bool {
        &&& self.user_id is Keep
        &&& self.oauth is Keep
        &&& self.token is Keep
    }

    /// Whether the session cookies are set to the given values.
    pub open spec fn sets_session(
        &self,
        user_id: Seq<char>,
        oauth: Seq<char>,
        token: Seq<char>,
    ) -> bool {
        &&& self.user_id matches CookieOp::Assign(v) && v@ == user_id
        &&& self.oauth matches CookieOp::Assign(v) && v@ == oauth
        &&& self.token matches CookieOp::Assign(v) && v@ == token
    }
}

/// The session cookies a request came with.
pub struct SessionCookies {
    pub oauth: Option<String>,
    pub token: Option<String>,
    pub user_id: Option<String>,
}

/// A session check waiting for the provider's answer: the claimed session,
/// and the identity lookup to perform.
pub struct PendingValidation {
    pub provider: Provider,
    pub token: String,
    pub user_id: String,
    pub request: IdentityRequest,
}

/// The answer of an identity endpoint: HTTP status and body.
pub struct IdentityAnswer {
    pub status: u16,
    pub body: String,
}

/// The identity lookup, as plain values.
pub open spec fn request_view(r: IdentityRequest) -> (Seq<char>, Option<Seq<char>>) {
    (
        r.url@,
        match r.bearer {
            Some(b) => Some(b@),
            None => None,
        },
    )
}

/// What a provider's identity endpoint answer yields; no answer at all,
/// because the request could not be sent, is a failure.
pub open spec fn answer_identity(p: Provider, answer: Option<IdentityAnswer>) -> Result<
    Seq<char>,
    AuthError,
> {
    match answer {
        Some(a) => identity_of(p, a.status, a.body@),
        None => Err(AuthError::IdentityFetchFailed),
    }
}

/// Whether the user with the user id has the email.
pub open spec fn session_matches(users: Seq<UserView>, user_id: Seq<char>, email: Seq<char>) -> bool {
    exists|i: int| 0 <= i < users.len() && #[trigger] users[i].user_id == user_id && users[i].email == email
}

/// Why a session check fails, given what the provider answered.
pub open spec fn validation_error(
    users: Seq<UserView>,
    user_id: Seq<char>,
    identity: Result<Seq<char>, AuthError>,
) -> AuthError {
    match identity {
        Err(e) => e,
        Ok(_) => if has_user_id(users, user_id) {
            AuthError::ValidationFailed
        } else {
            AuthError::UserLookupFailed
        },
    }
}

/// Whether a session check succeeds, given what the provider answered.
pub open spec fn validation_succeeds(
    users: Seq<UserView>,
    user_id: Seq<char>,
    identity: Result<Seq<char>, AuthError>,
) -> bool {
    identity matches Ok(email) && session_matches(users, user_id, email)
}

/// How a session check starts: the provider, token, user id and identity
/// lookup to perform, or why the check fails with no outbound call.
pub open spec fn spec_begin_validation(providers: Providers, cookies: SessionCookies) -> Result<
    (Provider, Seq<char>, Seq<char>, (Seq<char>, Option<Seq<char>>)),
    AuthError,
> {
    match (cookies.oauth, cookies.token, cookies.user_id) {
        (Some(o), Some(t), Some(u)) => match Provider::spec_from_name(o@) {
            None => Err(AuthError::UnsupportedProvider),
            Some(p) => match spec_identity_request(providers, p, t@) {
                None => Err(AuthError::IdentityFetchFailed),
                Some(req) => Ok((p, t@, u@, req)),
            },
        },
        _ => Err(AuthError::NoSession),
    }
}

/// A pending check, as plain values.
pub open spec fn pending_view(p: PendingValidation) -> (
    Provider,
    Seq<char>,
    Seq<char>,
    (Seq<char>, Option<Seq<char>>),
) {
    (p.provider, p.token@, p.user_id@, request_view(p.request))
}

/// The first step of a session check. It fails closed, and asks the caller
/// to make no outbound call, when a cookie is missing, when the provider
/// name is unknown, or when the provider has no identity endpoint.
pub fn begin_validation(providers: &Providers, cookies: &SessionCookies) -> (r: Result<
    PendingValidation,
    AuthError,
>)
    ensures
        match r {
            Ok(p) => spec_begin_validation(*providers, *cookies) == Ok::<_, AuthError>(
                pending_view(p),
            ),
            Err(e) => spec_begin_validation(*providers, *cookies) == Err::<
                (Provider, Seq<char>, Seq<char>, (Seq<char>, Option<Seq<char>>)),
                AuthError,
            >(e),
        },
{
    let (oauth, token, user_id) = match (&cookies.oauth, &cookies.token, &cookies.user_id) {
        (Some(o), Some(t), Some(u)) => (o, t, u),
        _ => {
            return Err(AuthError::NoSession);
        },
    };
    let provider = match Provider::from_name(oauth.as_str()) {
        Some(p) => p,
        None => {
            return Err(AuthError::UnsupportedProvider);
        },
    };
    match identity_request(providers, provider, token.as_str()) {
        Some(request) => Ok(
            PendingValidation { provider, token: token.clone(), user_id: user_id.clone(), request },
        ),
        None => Err(AuthError::IdentityFetchFailed),
    }
}

/// The second step of a session check: the session is valid exactly when
/// the provider answered with the email stored for the claimed user, and
/// the result is that user.
pub fn finish_validation(
    dir: &UserDirectory,
    pending: &PendingValidation,
    answer: Option<IdentityAnswer>,
) -> (r: Result<User, AuthError>)
    requires
        dir.wf(),
    ensures
        r is Ok <==> validation_succeeds(
            dir@,
            pending.user_id@,
            answer_identity(pending.provider, answer),
        ),
        match r {
            Ok(u) => dir@.contains(u@) && u@.user_id == pending.user_id@ && answer_identity(
                pending.provider,
                answer,
            ) == Ok::<Seq<char>, AuthError>(u@.email),
            Err(e) => e == validation_error(
                dir@,
                pending.user_id@,
                answer_identity(pending.provider, answer),
            ),
        },
{
    let ghost identity = answer_identity(pending.provider, answer);
    let email = match answer {
        Some(a) => match parse_identity(pending.provider, a.status, a.body.as_str()) {
            Ok(e) => e,
            Err(e) => {
                return Err(e);
            },
        },
        None => {
            return Err(AuthError::IdentityFetchFailed);
        },
    };
    assert(identity == Ok::<Seq<char>, AuthError>(email@));
    let user = match get_user_by_user_id(dir, pending.user_id.as_str()) {
        Some(u) => u,
        None => {
            assert(!session_matches(dir@, pending.user_id@, email@));
            return Err(AuthError::UserLookupFailed);
        },
    };
    if !str_eq(user.email.as_str(), email.as_str()) {
        assert(!session_matches(dir@, pending.user_id@, email@)) by {
            dir.lemma_user_id_identifies(user@);
        }
        assert(has_user_id(dir@, pending.user_id@)) by {
            let i = choose|i: int| 0 <= i < dir@.len() && dir@[i] == user@;
            assert(dir@[i].user_id == pending.user_id@);
        }
        return Err(AuthError::ValidationFailed);
    }
    assert(session_matches(dir@, pending.user_id@, email@)) by {
        let i = choose|i: int| 0 <= i < dir@.len() && dir@[i] == user@;
        assert(dir@[i].user_id == pending.user_id@);
    }
    Ok(copy_user(user))
}

/// A session that names a provider this service does not know fails
/// closed: no identity lookup is handed out for it.
pub proof fn lemma_unknown_provider_fails_closed(providers: Providers, cookies: SessionCookies)
    requires
        cookies.oauth matches Some(o) && Provider::spec_from_name(o@) is None,
    ensures
        spec_begin_validation(providers, cookies) is Err,
{
}

/// For every provider, a session check succeeds exactly when the identity
/// endpoint answers with a success status, marks the email as verified,
/// and gives the exact email stored for the claimed user.
pub proof fn lemma_validation_iff_stored_email(
    p: Provider,
    users: Seq<UserView>,
    user_id: Seq<char>,
    status: u16,
    body: Seq<char>,
)
    ensures
        validation_succeeds(users, user_id, identity_of(p, status, body)) <==> (200 <= status < 300
            && flag_set(body, verified_key(p)) && exists|i: int|
            0 <= i < users.len() && #[trigger] users[i].user_id == user_id && email_field(body)
                == Some(users[i].email)),
{
}

/// What a login request does.
pub struct LoginOutcome {
    pub redirect: String,
    pub cookies: CookieChanges,
}

/// Starts a login with the named provider: the browser is sent to the
/// provider's authorization URL, and the state issued with it is kept in a
/// cookie. An unknown or unconfigured provider, or an invalid configuration,
/// sends the browser to the failure page instead.
pub fn login(providers: &Providers, provider_name: &str) -> (r: LoginOutcome)
    ensures
        r.cookies.keeps_session(),
        match Provider::spec_from_name(provider_name@) {
            Some(p) => match providers.spec_config(p) {
                Some(cfg) => if cfg.urls_valid() {
                    r.cookies.state matches CookieOp::Assign(st) && st@.len() == 22 && r.redirect@
                        == authorize_url_of(
                        cfg.auth_url@,
                        cfg.client_id@,
                        cfg.redirect_url@,
                        views(cfg.scopes@),
                        st@,
                    )
                } else {
                    r.redirect@ == FAILURE_REDIRECT@ && r.cookies.state is Keep
                },
                None => r.redirect@ == FAILURE_REDIRECT@ && r.cookies.state is Keep,
            },
            None => r.redirect@ == FAILURE_REDIRECT@ && r.cookies.state is Keep,
        },
{
    let failure = LoginOutcome {
        redirect: FAILURE_REDIRECT.to_owned(),
        cookies: CookieChanges {
            user_id: CookieOp::Keep,
            oauth: CookieOp::Keep,
            token: CookieOp::Keep,
            state: CookieOp::Keep,
        },
    };
    let p = match Provider::from_name(provider_name) {
        Some(p) => p,
        None => {
            return failure;
        },
    };
    let cfg = match providers.config(p) {
        Some(c) => c,
        None => {
            return failure;
        },
    };
    match generate_oauth_redirect(cfg) {
        Ok(req) => LoginOutcome {
            redirect: req.url,
            cookies: CookieChanges {
                user_id: CookieOp::Keep,
                oauth: CookieOp::Keep,
                token: CookieOp::Keep,
                state: CookieOp::Assign(req.state),
            },
        },
        Err(_) => failure,
    }
}

/// The first step of a callback: the provider must be known, and the state
/// it hands back must be the one issued at login.
pub fn begin_callback(provider_name: &str, state: &str, issued_state: Option<&str>) -> (r: Result<
    Provider,
    AuthError,
>)
    ensures
        match Provider::spec_from_name(provider_name@) {
            None => r == Err::<Provider, AuthError>(AuthError::UnsupportedProvider),
            Some(p) => if issued_state matches Some(s) && s@ == state@ {
                r == Ok::<Provider, AuthError>(p)
            } else {
                r == Err::<Provider, AuthError>(AuthError::StateMismatch)
            },
        },
{
    let p = match Provider::from_name(provider_name) {
        Some(p) => p,
        None => {
            return Err(AuthError::UnsupportedProvider);
        },
    };
    match issued_state {
        Some(s) => if str_eq(s, state) {
            Ok(p)
        } else {
            Err(AuthError::StateMismatch)
        },
        None => Err(AuthError::StateMismatch),
    }
}

/// What a callback does.
pub struct CallbackOutcome {
    pub redirect: &'static str,
    pub cookies: CookieChanges,
    pub user: Result<User, AuthError>,
}

/// The email a callback signs in with: the provider's answer for the token
/// the code was exchanged for. A failed exchange, a provider without an
/// identity endpoint or a failed lookup yields no email.
pub open spec fn callback_identity(
    providers: Providers,
    provider: Provider,
    exchanged: Result<Seq<char>, AuthError>,
    answer: Option<IdentityAnswer>,
) -> Result<Seq<char>, AuthError> {
    match exchanged {
        Err(e) => Err(e),
        Ok(token) => if spec_identity_request(providers, provider, token) is None {
            Err(AuthError::IdentityFetchFailed)
        } else {
            answer_identity(provider, answer)
        },
    }
}

/// Completes a callback, given the result of exchanging the code for a
/// token and the identity endpoint's answer for that token. With an email,
/// the user with that email is found or created and the three session
/// cookies are set; on any failure the browser goes to the failure page, no
/// session cookie is set and no user is created. A new email always gets
/// its user unless the numeric ids are used up or a random user id could
/// collide. The login state cookie is consumed either way.
pub fn finish_callback(
    dir: &mut UserDirectory,
    providers: &Providers,
    provider: Provider,
    exchanged: Result<String, AuthError>,
    answer: Option<IdentityAnswer>,
) -> (r: CallbackOutcome)
    requires
        old(dir).wf(),
    ensures
        final(dir).wf(),
        r.cookies.state is Remove,
        match callback_identity(
            *providers,
            provider,
            match exchanged {
                Ok(t) => Ok(t@),
                Err(e) => Err(e),
            },
            answer,
        ) {
            Err(e) => {
                &&& final(dir)@ == old(dir)@
                &&& r.user == Err::<User, AuthError>(e)
                &&& r.redirect@ == FAILURE_REDIRECT@
                &&& r.cookies.keeps_session()
            },
            Ok(email) => {
                &&& sign_in_result(old(dir)@, final(dir)@, email, user_result_view(r.user))
                &&& (!ids_exhausted(old(dir)@) && no_generated_ids(old(dir)@) ==> r.user is Ok)
                &&& match r.user {
                    Ok(u) => r.redirect@ == HOME_REDIRECT@ && (exchanged matches Ok(t)
                        && r.cookies.sets_session(u@.user_id, provider.spec_name(), t@)),
                    Err(_) => r.redirect@ == FAILURE_REDIRECT@ && r.cookies.keeps_session(),
                }
            },
        },
{
    let failed = CookieChanges {
        user_id: CookieOp::Keep,
        oauth: CookieOp::Keep,
        token: CookieOp::Keep,
        state: CookieOp::Remove,
    };
    let token = match exchanged {
        Ok(t) => t,
        Err(e) => {
            return CallbackOutcome { redirect: FAILURE_REDIRECT, cookies: failed, user: Err(e) };
        },
    };
    if identity_request(providers, provider, token.as_str()).is_none() {
        return CallbackOutcome {
            redirect: FAILURE_REDIRECT,
            cookies: failed,
            user: Err(AuthError::IdentityFetchFailed),
        };
    }
    let email = match answer {
        Some(a) => match parse_identity(provider, a.status, a.body.as_str()) {
            Ok(e) => e,
            Err(e) => {
                return CallbackOutcome { redirect: FAILURE_REDIRECT, cookies: failed, user: Err(e) };
            },
        },
        None => {
            return CallbackOutcome {
                redirect: FAILURE_REDIRECT,
                cookies: failed,
                user: Err(AuthError::IdentityFetchFailed),
            };
        },
    };
    match find_or_insert_user(dir, email.as_str()) {
        Ok(user) => {
            let cookies = CookieChanges {
                user_id: CookieOp::Assign(user.user_id.clone()),
                oauth: CookieOp::Assign(provider.name().to_owned()),
                token: CookieOp::Assign(token),
                state: CookieOp::Remove,
            };
            CallbackOutcome { redirect: HOME_REDIRECT, cookies, user: Ok(user) }
        },
        Err(e) => CallbackOutcome { redirect: FAILURE_REDIRECT, cookies: failed, user: Err(e) },
    }
}

/// Two callbacks whose identities resolve to the same email create at most
/// one user: the second returns the first one's user and leaves the
/// directory as the first one left it, whatever providers they came through.
pub proof fn lemma_callbacks_share_one_user(
    providers: Providers,
    d0: Seq<UserView>,
    d1: Seq<UserView>,
    d2: Seq<UserView>,
    email: Seq<char>,
    first: (Provider, Result<Seq<char>, AuthError>, Option<IdentityAnswer>),
    second: (Provider, Result<Seq<char>, AuthError>, Option<IdentityAnswer>),
    r1: Result<UserView, AuthError>,
    r2: Result<UserView, AuthError>,
)
    requires
        records_distinct(d0),
        callback_identity(providers, first.0, first.1, first.2) == Ok::<Seq<char>, AuthError>(email),
        callback_identity(providers, second.0, second.1, second.2) == Ok::<Seq<char>, AuthError>(
            email,
        ),
        sign_in_result(d0, d1, email, r1),
        sign_in_result(d1, d2, email, r2),
        r1 is Ok,
    ensures
        d2 == d1,
        r2 == r1,
        d1.len() <= d0.len() + 1,
{
    lemma_sign_in_idempotent(d0, d1, d2, email, r1, r2);
}

/// What logout does.
pub struct LogoutOutcome {
    pub logged_out: bool,
    pub redirect: &'static str,
    pub cookies: CookieChanges,
}

/// Where logout stands between calls to the provider.
pub enum LogoutStep {
    /// Check the session with the provider, then call [`logout_validated`].
    Validate(PendingValidation),
    /// Revoke the token with the provider, then call [`logout_revoked`].
    Revoke { provider: Provider, token: String },
    /// Nothing is left to ask the provider.
    Done(LogoutOutcome),
}

/// The end of a logout: all three session cookies are removed, whatever
/// the provider did, and the redirect tells whether the token was revoked.
pub open spec fn logout_done(o: LogoutOutcome, logged_out: bool) -> bool {
    &&& o.logged_out == logged_out
    &&& o.redirect@ == if logged_out {
        LOGOUT_DONE_REDIRECT@
    } else {
        LOGOUT_NONE_REDIRECT@
    }
    &&& o.cookies.clears_session()
    &&& o.cookies.state is Keep
}

/// The end of a logout.
fn logout_outcome(logged_out: bool) -> (r: LogoutOutcome)
    ensures
        logout_done(r, logged_out),
{
    LogoutOutcome {
        logged_out,
        redirect: if logged_out {
            LOGOUT_DONE_REDIRECT
        } else {
            LOGOUT_NONE_REDIRECT
        },
        cookies: CookieChanges {
            user_id: CookieOp::Remove,
            oauth: CookieOp::Remove,
            token: CookieOp::Remove,
            state: CookieOp::Keep,
        },
    }
}

/// Starts a logout: the session is checked first when all three cookies
/// name one that can be checked; otherwise logout ends at once, reporting
/// no active session.
pub fn begin_logout(providers: &Providers, cookies: &SessionCookies) -> (r: LogoutStep)
    ensures
        match r {
            LogoutStep::Validate(p) => spec_begin_validation(*providers, *cookies) == Ok::<
                _,
                AuthError,
            >(pending_view(p)),
            LogoutStep::Revoke { .. } => false,
            LogoutStep::Done(o) => spec_begin_validation(*providers, *cookies) is Err && logout_done(
                o,
                false,
            ),
        },
{
    match begin_validation(providers, cookies) {
        Ok(p) => LogoutStep::Validate(p),
        Err(_) => LogoutStep::Done(logout_outcome(false)),
    }
}

/// Continues a logout once the provider answered the session check: a
/// valid session of a provider with a revocation endpoint goes on to
/// revocation; anything else ends the logout, reporting no active session.
pub fn logout_validated(
    dir: &UserDirectory,
    pending: &PendingValidation,
    answer: Option<IdentityAnswer>,
) -> (r: LogoutStep)
    requires
        dir.wf(),
    ensures
        match r {
            LogoutStep::Validate(_) => false,
            LogoutStep::Revoke { provider, token } => {
                &&& validation_succeeds(dir@, pending.user_id@, answer_identity(pending.provider, answer))
                &&& spec_endpoints(pending.provider) is Some
                &&& provider == pending.provider
                &&& token@ == pending.token@
            },
            LogoutStep::Done(o) => !(validation_succeeds(
                dir@,
                pending.user_id@,
                answer_identity(pending.provider, answer),
            ) && spec_endpoints(pending.provider) is Some) && logout_done(o, false),
        },
{
    match finish_validation(dir, pending, answer) {
        Ok(_) => match pending.provider {
            Provider::Google | Provider::Discord => LogoutStep::Revoke {
                provider: pending.provider,
                token: pending.token.clone(),
            },
            Provider::Hogbisz => LogoutStep::Done(logout_outcome(false)),
        },
        Err(_) => LogoutStep::Done(logout_outcome(false)),
    }
}

/// Ends a logout once the provider was asked to revoke the token: the
/// session cookies are removed whether or not it did.
pub fn logout_revoked(revoked: bool) -> (r: LogoutOutcome)
    ensures
        logout_done(r, revoked),
{
    logout_outcome(revoked)
}

/// The answer to a request for the signed-in user.
pub struct MeResponse {
    pub status: u16,
    pub message: &'static str,
    pub user: Option<User>,
}

/// The answer to a request for the signed-in user, from the session check:
/// the user on success, unauthorized otherwise.
pub fn me_response(validation: Result<User, AuthError>) -> (r: MeResponse)
    ensures
        match validation {
            Ok(u) => r.status == 200 && r.message@ == "OK"@ && (r.user matches Some(v) && v@
                == u@),
            Err(_) => r.status == 401 && r.message@ == "Unauthorized"@ && r.user is None,
        },
{
    match validation {
        Ok(u) => MeResponse { status: 200, message: "OK", user: Some(u) },
        Err(_) => MeResponse { status: 401, message: "Unauthorized", user: None },
    }
}

} // verus!
