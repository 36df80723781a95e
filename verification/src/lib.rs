//! OAuth2 token-acquisition core for the Microsoft identity platform.
//!
//! The crate models the credential flavors of the client (authorization code,
//! certificate assertion, client secret, refresh token, device code and
//! interactive browser), turns each into a validated, grant-specific token
//! request, and caches acquired tokens with expiry-aware silent renewal.
//! Network transport is left to the embedding application; everything that
//! decides what a request or a cache holds is verified here.

pub mod app_config;
pub mod authority;
pub mod authorization_code_certificate_credential;
pub mod cache;
pub mod client_credentials_authorization_url;
pub mod client_secret_credential;
pub mod error;
pub mod executor;
pub mod form;
pub mod grants;
pub mod serializer;
pub mod text;
pub mod token;
pub mod url_support;
pub mod web_view;
