//! Settings of the server.

use vstd::prelude::*;

verus! {

/// Settings read from the configuration file.
pub struct Config {
    pub database_url: String,
    /// Symmetric key that access tokens are signed with.
    pub jwt_secret: Option<String>,
    pub server_address: String,
    pub port: u16,
    /// Registrations admitted per address per hour; 1 when unset.
    pub register_ip_limit_per_hour: Option<u32>,
    /// Logins admitted per address per hour; 1 when unset.
    pub login_ip_limit_per_hour: Option<u32>,
}

/// `o`'s value, or `d` where there is none.
pub open spec fn or_default(o: Option<u32>, d: u32) -> u32 {
    match o {
        Some(v) => v,
        None => d,
    }
}

} // verus!
