//! Identity and session lifecycle manager for an external-identity login
//! gateway: OAuth code exchange support, identity resolution and account
//! linking, encrypted token vaulting, and issuance, rotation and revocation
//! of session credentials.

pub mod client;
pub mod errors;
pub mod flows;
pub mod state;
pub mod store;
pub mod strutil;
pub mod token;
pub mod vault;
