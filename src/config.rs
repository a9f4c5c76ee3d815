//! The provider's endpoints and protocol constants, gathered in one value.
use vstd::prelude::*;

verus! {

pub const BASE_URL: &'static str = "https://jouw.postnl.nl";
pub const LOGIN_URL: &'static str = "https://jouw.postnl.nl/identity/Account/Login";
pub const AUTHORIZE_URL: &'static str = "https://jouw.postnl.nl/identity/connect/authorize";
pub const TOKEN_URL: &'static str = "https://jouw.postnl.nl/identity/connect/token";
pub const CLIENT_ID: &'static str = "pwb-web";
pub const AUDIENCE: &'static str = "poa-profiles-api";
pub const SCOPE: &'static str = "openid profile email poa-profiles-api pwb-web-api";
pub const REDIRECT_URI: &'static str = "https://jouw.postnl.nl/silent-renew.html";
pub const UI_LOCALES: &'static str = "nl_NL";

/// Where the identity provider lives and the values it expects verbatim.
#[derive(Clone, Debug)]
pub struct Config {
    /// Scheme and host, without a trailing slash.
    pub base_url: String,
    pub login_url: String,
    pub authorize_url: String,
    pub token_url: String,
    pub client_id: String,
    pub audience: String,
    pub scope: String,
    /// The registered silent-renew page: a correlation value, never loaded.
    pub redirect_uri: String,
    pub ui_locales: String,
    /// The opaque sensor data blob that the bot check expects.
    pub sensor_data: String,
}

impl Config {
    /// The PostNL identity provider, with the sensor data that is bundled with the client.
    pub fn postnl(sensor_data: String) -> (r: Config)
        ensures
            r.base_url@ == BASE_URL@,
            r.login_url@ == LOGIN_URL@,
            r.authorize_url@ == AUTHORIZE_URL@,
            r.token_url@ == TOKEN_URL@,
            r.client_id@ == CLIENT_ID@,
            r.audience@ == AUDIENCE@,
            r.scope@ == SCOPE@,
            r.redirect_uri@ == REDIRECT_URI@,
            r.ui_locales@ == UI_LOCALES@,
            r.sensor_data == sensor_data,
    {
        Config {
            base_url: String::from_str(BASE_URL),
            login_url: String::from_str(LOGIN_URL),
            authorize_url: String::from_str(AUTHORIZE_URL),
            token_url: String::from_str(TOKEN_URL),
            client_id: String::from_str(CLIENT_ID),
            audience: String::from_str(AUDIENCE),
            scope: String::from_str(SCOPE),
            redirect_uri: String::from_str(REDIRECT_URI),
            ui_locales: String::from_str(UI_LOCALES),
            sensor_data,
        }
    }
}

} // verus!
