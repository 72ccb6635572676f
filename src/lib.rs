//! Multi-provider OAuth sign-in for a small video-hosting service.
//!
//! Sessions are not stored on the server: each request carries the provider
//! name, the access token and the local user id, and every check asks the
//! provider again who the token belongs to.
pub mod api;
pub mod cors;
pub mod error;
pub mod identity;
pub mod provider;
pub mod session;
pub mod text;
pub mod users;
pub mod video;
