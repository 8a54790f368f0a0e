//! Configuration surface of the login subsystem. All values are required;
//! reading them from the process environment is the embedder's concern.

use vstd::prelude::*;

verus! {

/// The configuration the subsystem runs with: listen address, provider
/// client credentials and redirect URI, token signing secret, and the two
/// backing-store connection strings.
#[derive(Debug, Clone)]
pub struct Settings {
    pub server_addr: String,
    pub database_url: String,
    pub google_client_id: String,
    pub google_client_secret: String,
    pub google_redirect_url: String,
    pub jwt_secret: String,
    pub redis_url: String,
}

} // verus!
