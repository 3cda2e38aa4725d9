//! The broker configuration and how it is loaded from three environment
//! lookups.

use crate::error::ConfigError;
use crate::error::ConfigErrorView;
use crate::text::trim;
use crate::text::trimmed;
use vstd::prelude::*;
use vstd::string::*;

verus! {

/// The environment variable that holds the client id.
pub const CLIENT_ID_VAR: &'static str = "NANGO_CLIENT_ID";

/// The environment variable that holds the secret key.
pub const SECRET_KEY_VAR: &'static str = "NANGO_SECRET_KEY";

/// The environment variable that holds the callback URL.
pub const CALLBACK_URL_VAR: &'static str = "NANGO_CALLBACK_URL";

/// What the client needs to know to ask the broker for a connection.
#[derive(Debug, Clone)]
pub struct NangoConfig {
    pub client_id: String,
    pub secret_key: String,
    pub callback_url: String,
}

/// A `NangoConfig` as a mathematical value.
pub struct NangoConfigView {
    pub client_id: Seq<char>,
    pub secret_key: Seq<char>,
    pub callback_url: Seq<char>,
}

impl View for NangoConfig {
    type V = NangoConfigView;

    open spec fn view(&self) -> NangoConfigView {
        NangoConfigView {
            client_id: self.client_id@,
            secret_key: self.secret_key@,
            callback_url: self.callback_url@,
        }
    }
}

/// Builds the configuration from the values found for `NANGO_CLIENT_ID`,
/// `NANGO_SECRET_KEY` and `NANGO_CALLBACK_URL`, `None` standing for a variable
/// that is not set. Each value is trimmed and otherwise taken as it is. The
/// first variable that is not set, in this order, is the one reported.
pub fn load_nango_config(
    client_id: Option<String>,
    secret_key: Option<String>,
    callback_url: Option<String>,
) -> (loaded: Result<NangoConfig, ConfigError>)
    ensures
        client_id is None ==> (loaded matches Err(e) && e@ == ConfigErrorView::Missing(
            CLIENT_ID_VAR@,
        )),
        client_id is Some && secret_key is None ==> (loaded matches Err(e) && e@
            == ConfigErrorView::Missing(SECRET_KEY_VAR@)),
        client_id is Some && secret_key is Some && callback_url is None ==> (loaded matches Err(e)
            && e@ == ConfigErrorView::Missing(CALLBACK_URL_VAR@)),
        client_id is Some && secret_key is Some && callback_url is Some ==> (loaded matches Ok(
            config,
        ) && config@ == (NangoConfigView {
            client_id: trimmed(client_id->0@),
            secret_key: trimmed(secret_key->0@),
            callback_url: trimmed(callback_url->0@),
        })),
{
    let client_id = match client_id {
        Some(value) => trim(value.as_str()),
        None => { return Err(ConfigError::Missing(CLIENT_ID_VAR.to_owned())); },
    };
    let secret_key = match secret_key {
        Some(value) => trim(value.as_str()),
        None => { return Err(ConfigError::Missing(SECRET_KEY_VAR.to_owned())); },
    };
    let callback_url = match callback_url {
        Some(value) => trim(value.as_str()),
        None => { return Err(ConfigError::Missing(CALLBACK_URL_VAR.to_owned())); },
    };
    Ok(NangoConfig { client_id, secret_key, callback_url })
}

} // verus!
