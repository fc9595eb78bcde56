//! The configuration the program runs with.

use vstd::prelude::*;

verus! {

/// Application credentials and the local ports.
#[derive(Debug)]
pub struct Config {
    pub client_id: String,
    pub client_secret: String,
    /// The port of the redirect URI registered for the application.
    pub redirect_port: u16,
    /// The port the overlay server listens on.
    pub http_port: u16,
}

} // verus!
