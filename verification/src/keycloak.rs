//! Keycloak client-credentials tokens: configuration, the token value type,
//! and the expiry computation applied to every freshly issued token.

use vstd::prelude::*;

verus! {

/// Safety margin, in seconds, subtracted from a token's advertised lifetime
/// so that a token found valid at check time stays valid while it is used.
pub const LEEWAY_SECONDS: u64 = 10;

/// Connection details for one identity provider: base URL and the client
/// credentials presented to it. Immutable once constructed.
#[derive(Debug)]
pub struct KeycloakConfig {
    pub url: String,
    pub client_id: String,
    pub client_secret: String,
}

impl Clone for KeycloakConfig {
    fn clone(&self) -> (r: Self)
        ensures
            r.url@ == self.url@,
            r.client_id@ == self.client_id@,
            r.client_secret@ == self.client_secret@,
    {
        KeycloakConfig {
            url: self.url.clone(),
            client_id: self.client_id.clone(),
            client_secret: self.client_secret.clone(),
        }
    }
}

/// A bearer token together with its absolute expiry, in whole seconds of a
/// monotonic clock supplied by the caller.
#[derive(Debug)]
pub struct KeycloakToken {
    pub access_token: String,
    pub expiry: u64,
}

impl Clone for KeycloakToken {
    fn clone(&self) -> (r: Self)
        ensures
            r.access_token@ == self.access_token@,
            r.expiry == self.expiry,
    {
        KeycloakToken { access_token: self.access_token.clone(), expiry: self.expiry }
    }
}

/// The fields of a successful token-endpoint response: the bearer string and
/// the advertised lifetime in seconds.
#[derive(Debug)]
pub struct KeycloakTokenResponse {
    pub access_token: String,
    pub expires_in: i64,
}

/// The absolute expiry assigned to a token issued at `now` with advertised
/// lifetime `expires_in`: `now + expires_in - leeway`, with the remaining
/// lifetime clamped to zero when `expires_in <= leeway`, and the result
/// saturating at `u64::MAX`.
pub open spec fn token_expiry_spec(now: u64, expires_in: i64) -> u64 {
    if expires_in <= LEEWAY_SECONDS {
        now
    } else if now + expires_in - LEEWAY_SECONDS > u64::MAX {
        u64::MAX
    } else {
        (now + expires_in - LEEWAY_SECONDS) as u64
    }
}

impl KeycloakTokenResponse {
    /// The absolute expiry of this response's token, for an issue time of
    /// `now` seconds on the caller's monotonic clock.
    pub fn calculate_token_expiry(&self, now: u64) -> (expiry: u64)
        ensures
            expiry == token_expiry_spec(now, self.expires_in),
    {
        if self.expires_in <= LEEWAY_SECONDS as i64 {
            now
        } else {
            let lifetime: i64 = self.expires_in - LEEWAY_SECONDS as i64;
            if now > u64::MAX - lifetime as u64 {
                u64::MAX
            } else {
                now + lifetime as u64
            }
        }
    }
}

/// Builds the stored token from a token-endpoint response: the bearer string
/// is kept and the absolute expiry is computed from the issue time `now`.
pub fn derive_expiry_calculated_keycloak_token(response: KeycloakTokenResponse, now: u64) -> (token:
    KeycloakToken)
    ensures
        token.access_token@ == response.access_token@,
        token.expiry == token_expiry_spec(now, response.expires_in),
{
    let expiry: u64 = response.calculate_token_expiry(now);
    KeycloakToken { access_token: response.access_token, expiry }
}

} // verus!
