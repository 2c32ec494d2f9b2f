//! Credential lifecycle management for an OAuth2 client-credentials service,
//! together with the small JSON utilities that surround it: token expiry
//! tracking, bounded-retry acquisition, a concurrent token store, the
//! refresh scheduler's decision logic, a JSON value model with schema
//! helpers, and a flattened-JSON log record builder.

pub mod json_value;
pub mod keycloak;
pub mod observability;
pub mod retrieval;
pub mod retry;
pub mod scheduler;
pub mod shutdown;
pub mod store;
pub mod util;
pub mod validation;
