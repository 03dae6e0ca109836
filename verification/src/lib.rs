//! OAuth 2.0 authorization-code flow with PKCE for an installed application:
//! proof-of-possession parameters, the authorization URL, the single-use
//! loopback callback receiver and the sequencing of the whole flow, each
//! with a machine-checked contract.

pub mod callback;
pub mod configuration;
pub mod error;
pub mod gauth2;
pub mod listener;
pub mod percent;
pub mod pkce;
pub mod port;
pub mod request;
pub mod stopwatch;
pub mod text;
pub mod token;
pub mod url;
