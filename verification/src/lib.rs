//! A stateless authentication and authorization core for an HTTP API:
//! it salts and hashes credentials, issues and validates signed
//! time-bounded session tokens, resolves a per-request identity, and gates
//! role-restricted operations. Storage, routing and transport live outside;
//! they hand this crate plain values and take plain values back.

pub mod errors;
pub mod flows;
pub mod identity;
pub mod password;
pub mod policy;
pub mod response;
pub mod schema;
pub mod token;
pub mod upload;
