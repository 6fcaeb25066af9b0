use vstd::prelude::*;

verus! {

/// Settings read once at start-up and never changed afterwards.
#[derive(Debug, Clone)]
pub struct Config {
    pub database_url: String,
    pub jwt_secret: String,
    pub host: String,
    pub port: u16,
    pub ml_service_url: String,
    pub admin_email: String,
    pub admin_password: String,
}

} // verus!
