//! Verified core of the StellarTrust governance and escrow contracts.

pub mod auth;
pub mod errors;
pub mod escrow_errors;
pub mod governance;
pub mod laws;
pub mod model;
pub mod outcomes;
pub mod types;
