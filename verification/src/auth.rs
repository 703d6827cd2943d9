//! Token-exchange response shapes of the authentication endpoint.

use vstd::prelude::*;

verus! {

/// A successful token exchange: a fresh access token and its expiry.
#[derive(Debug, Clone, PartialEq, Eq)]
pub struct TokenResponse {
    /// The access token to present as a bearer credential.
    pub access_token: String,
    /// When the token expires, as the backend formats it.
    pub expires_at: String,
}

/// A rejected token exchange.
#[derive(Debug, Clone, PartialEq, Eq)]
pub struct ErrorResponse {
    /// The backend's error name.
    pub error: String,
}

} // verus!
