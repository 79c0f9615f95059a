//! The settings of one run, built once at startup and handed on by
//! reference.

use vstd::prelude::*;

verus! {

#[derive(Clone, Debug)]
pub struct Config {
    /// Account name on the enrollment portal.
    pub ntnu_account: String,
    /// Password of that account.
    pub ntnu_password: String,
    /// Root address of the CAPTCHA recognition service.
    pub captcha_service_uri: String,
    /// How often a failing request or a corrupted session is tried again.
    pub api_retry: i32,
    /// How many login attempts are made before giving up.
    pub captcha_retry: i32,
    /// Token of the messaging account that notifies subscribers.
    pub discord_token: String,
    /// Where the watchlist store lives on disk.
    pub db_path: String,
}

} // verus!
