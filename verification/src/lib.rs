//! Authentication and session issuance: scopes, signed session and state
//! tokens, the single-sign-on exchange with GitHub, and the reconciliation
//! of an external identity with a stored user account.

pub mod client;
pub mod github;
pub mod scope;
pub mod session;
pub mod sso;
pub mod token;
pub mod user;
