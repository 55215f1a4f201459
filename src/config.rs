//! Bot credentials.

use vstd::prelude::*;

verus! {

/// The bot's application id and client secret.
#[derive(Debug, Clone)]
pub struct Config {
    pub app_id: String,
    pub client_secret: String,
}

/// The configuration from the values of `QQ_APP_ID` and `QQ_CLIENT_SECRET`;
/// `None` when either is missing or empty, as both are required.
pub fn get_config(app_id: Option<String>, client_secret: Option<String>) -> (r: Option<Config>)
    ensures
        r is Some <==> (app_id matches Some(a) && a@.len() > 0) && (client_secret matches Some(s) && s@.len() > 0),
        r matches Some(c) ==> Some(c.app_id) == app_id && Some(c.client_secret) == client_secret,
{
    match (app_id, client_secret) {
        (Some(app_id), Some(client_secret)) => {
            if app_id.as_str().unicode_len() > 0 && client_secret.as_str().unicode_len() > 0 {
                Some(Config { app_id, client_secret })
            } else {
                None
            }
        },
        _ => None,
    }
}

} // verus!
