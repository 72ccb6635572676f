//! Failures of the sign-in subsystem.
use vstd::prelude::*;

verus! {

/// What went wrong while signing in, checking or ending a session.
#[derive(Debug, Clone, Copy, PartialEq, Eq, Structural)]
pub enum AuthError {
    /// A provider endpoint or credential is malformed.
    ConfigurationError,
    /// The token endpoint refused the authorization code, or could not be reached.
    ExchangeFailed,
    /// The identity endpoint failed, or its answer held no usable email.
    IdentityFetchFailed,
    /// The provider name is not one this service knows.
    UnsupportedProvider,
    /// No local user answers to the given id.
    UserLookupFailed,
    /// A local user could not be created.
    UserCreationFailed,
    /// The live identity does not match the local user.
    ValidationFailed,
    /// The provider did not revoke the token.
    RevocationFailed,
    /// The `state` returned by the provider is not the one issued at login.
    StateMismatch,
    /// A session cookie is missing.
    NoSession,
}

impl AuthError {
    /// A short description of the failure.
    pub open spec fn spec_message(self) -> Seq<char> {
        match self {
            AuthError::ConfigurationError => "provider configuration is invalid"@,
            AuthError::ExchangeFailed => "the authorization code could not be exchanged"@,
            AuthError::IdentityFetchFailed => "the identity could not be fetched"@,
            AuthError::UnsupportedProvider => "the provider is not supported"@,
            AuthError::UserLookupFailed => "no such user"@,
            AuthError::UserCreationFailed => "the user could not be created"@,
            AuthError::ValidationFailed => "the session is not valid"@,
            AuthError::RevocationFailed => "the token could not be revoked"@,
            AuthError::StateMismatch => "the login state does not match"@,
            AuthError::NoSession => "there is no session"@,
        }
    }

    /// A short description of the failure.
    pub fn message(&self) -> (r: &'static str)
        ensures
            r@ == self.spec_message(),
    {
        match self {
            AuthError::ConfigurationError => "provider configuration is invalid",
            AuthError::ExchangeFailed => "the authorization code could not be exchanged",
            AuthError::IdentityFetchFailed => "the identity could not be fetched",
            AuthError::UnsupportedProvider => "the provider is not supported",
            AuthError::UserLookupFailed => "no such user",
            AuthError::UserCreationFailed => "the user could not be created",
            AuthError::ValidationFailed => "the session is not valid",
            AuthError::RevocationFailed => "the token could not be revoked",
            AuthError::StateMismatch => "the login state does not match",
            AuthError::NoSession => "there is no session",
        }
    }
}

} // verus!
