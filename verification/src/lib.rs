//! A verified core for a user-registration endpoint.
//!
//! The library decides whether a registration payload is acceptable, how
//! constraint violations are aggregated into a user-facing error, and what
//! the published schema description says — all from a single set of field
//! rule declarations, so the enforced rules and the documented rules cannot
//! drift apart.

pub mod description;
pub mod handler;
pub mod schema;
pub mod validator;
