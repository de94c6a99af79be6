//! The settings that every component reads, fixed at start-up.
use vstd::prelude::*;

verus! {

/// Credentials and addresses, injected once and only read afterwards.
#[derive(Clone, Debug)]
pub struct Config {
    pub ghost_url: String,
    pub ghost_admin_id: String,
    pub ghost_admin_secret: String,
    pub webhook_secret: String,
    pub resend_api_key: String,
    pub from_email: String,
    pub port: u16,
}

} // verus!
