//! Interpretation of one token-acquisition exchange: the endpoint URL, the
//! classification of the provider's response into a fresh token or a typed
//! error, and the trusted boundary to the JSON parser.

use vstd::prelude::*;
use crate::keycloak::{KeycloakConfig, KeycloakToken, KeycloakTokenResponse, token_expiry_spec};
use vstd::string::StringExecFns;

verus! {

/// Why a token acquisition failed.
#[derive(Debug)]
pub enum TokenError {
    /// The provider answered with a status other than 200.
    TransportError { status: u16 },
    /// The provider answered 200 but the body did not parse into
    /// `{access_token: string, expires_in: integer}`; the raw body text is
    /// kept for diagnosis.
    ParseError { raw_body: String },
    /// Every attempt of a bounded-retry acquisition failed; the last
    /// underlying error is kept.
    ExhaustedRetries { last_error: Box<TokenError> },
}

/// Wraps the last underlying error of a retried acquisition whose budget is
/// spent: retrying escalates exactly this, never a stale or default token.
pub fn wrap_exhausted(last_error: TokenError) -> (e: TokenError)
    ensures
        e matches TokenError::ExhaustedRetries { last_error: boxed } && *boxed == last_error,
{
    TokenError::ExhaustedRetries { last_error: Box::new(last_error) }
}

/// The token endpoint for a provider at `base_url`:
/// `{base_url}/auth/realms/flexys/protocol/openid-connect/token`.
pub open spec fn token_endpoint_path() -> Seq<char> {
    "/auth/realms/flexys/protocol/openid-connect/token"@
}

/// Builds the token endpoint URL for the configured provider.
pub fn token_endpoint_url(config: &KeycloakConfig) -> (url: String)
    ensures
        url@ == config.url@ + token_endpoint_path(),
{
    config.url.clone().concat("/auth/realms/flexys/protocol/openid-connect/token")
}

/// What the JSON extraction recovers from a response body: the
/// `access_token` text and the `expires_in` integer, when the body is
/// valid JSON carrying both in those shapes. The outcome is a function of
/// the body text alone.
pub uninterp spec fn token_fields_of(body: Seq<char>) -> Option<(Seq<char>, i64)>;

/// Relies on `serde_json::from_str::<serde_json::Value>`,
/// `serde_json::Value::get`, `Value::as_str` and `Value::as_i64`: recovers
/// `{access_token: string, expires_in: integer}` from a response body,
/// handing back nothing when the body or either field is malformed.
#[verifier::external_body]
fn extract_token_fields(body: &str) -> (r: Option<(String, i64)>)
    ensures
        match r {
            Some(fields) => token_fields_of(body@) == Some((fields.0@, fields.1)),
            None => token_fields_of(body@) is None,
        },
{
    let doc: serde_json::Value = serde_json::from_str(body).ok()?;
    let access_token = doc.get("access_token")?.as_str()?.to_owned();
    let expires_in = doc.get("expires_in")?.as_i64()?;
    Some((access_token, expires_in))
}

/// Classifies one token-endpoint exchange, given the HTTP status, the raw
/// body text, the fields recovered from that body (if any), and the issue
/// time `now`: any status but 200 is a transport error carrying the status;
/// a 200 whose fields could not be recovered is a parse error carrying the
/// raw body; otherwise the fresh token with its computed expiry.
pub fn token_result(status: u16, body: String, fields: Option<(String, i64)>, now: u64) -> (r:
    Result<KeycloakToken, TokenError>)
    ensures
        r is Ok <==> status == 200 && fields is Some,
        status != 200 ==> (r matches Err(TokenError::TransportError { status: st }) && st
            == status),
        status == 200 && fields is None ==> (r matches Err(TokenError::ParseError { raw_body })
            && raw_body@ == body@),
        status == 200 ==> (fields matches Some((token, seconds)) ==> (r matches Ok(t)
            && t.access_token@ == token@ && t.expiry == token_expiry_spec(now, seconds))),
{
    if status != 200 {
        Err(TokenError::TransportError { status })
    } else {
        match fields {
            None => Err(TokenError::ParseError { raw_body: body }),
            Some((access_token, expires_in)) => {
                let response = KeycloakTokenResponse { access_token, expires_in };
                Ok(crate::keycloak::derive_expiry_calculated_keycloak_token(response, now))
            },
        }
    }
}

/// Interprets the provider's answer to one token acquisition performed at
/// `now`: status and body in, fresh token or typed error out. The JSON
/// parser decides whether a 200 body is well-formed; whatever it decides,
/// a transport error is returned exactly for a non-200 status, a parse
/// error always carries the raw body, and a returned token's expiry always
/// follows the leeway rule.
pub fn interpret_token_response(status: u16, body: String, now: u64) -> (r: Result<
    KeycloakToken,
    TokenError,
>)
    ensures
        r is Ok <==> status == 200 && token_fields_of(body@) is Some,
        r matches Err(TokenError::TransportError { status: st }) ==> st == status && status
            != 200,
        status != 200 ==> (r matches Err(TokenError::TransportError { status: st }) && st
            == status),
        r matches Err(TokenError::ParseError { raw_body }) ==> status == 200 && raw_body@
            == body@ && token_fields_of(body@) is None,
        status == 200 && token_fields_of(body@) is None ==> (r matches Err(
            TokenError::ParseError { raw_body },
        ) && raw_body@ == body@),
        status == 200 ==> (token_fields_of(body@) matches Some(fields) ==> (r matches Ok(t)
            && t.access_token@ == fields.0 && t.expiry == token_expiry_spec(now, fields.1))),
        !(r matches Err(TokenError::ExhaustedRetries { .. })),
{
    let fields: Option<(String, i64)> = if status == 200 {
        extract_token_fields(body.as_str())
    } else {
        None
    };
    let r = token_result(status, body, fields, now);
    proof {
        if r is Ok {
            let (token, seconds) = fields->Some_0;
            assert(r->Ok_0.expiry == token_expiry_spec(now, seconds));
        }
    }
    r
}

} // verus!
