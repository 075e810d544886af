//! Process-wide settings, fixed at startup.

use vstd::prelude::*;

verus! {

/// Signing secrets and token lifetimes.
pub struct JwtConfig {
    pub access_secret: String,
    pub refresh_secret: String,
    pub access_expiry_seconds: i64,
    pub refresh_expiry_seconds: i64,
}

pub struct Config {
    pub port: u16,
    pub database_url: String,
    pub jwt: JwtConfig,
}

} // verus!
