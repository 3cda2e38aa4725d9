//! The exchange with the broker: the request to send, and what its reply
//! amounts to. Sending is left to the caller.

use crate::config::NangoConfig;
use crate::error::FetchError;
use crate::error::FetchErrorView;
use crate::json::json_document;
use crate::json::json_member;
use crate::json::member;
use crate::json::parse_document;
use crate::token::decoded;
use crate::token::OAuth2Token;
use crate::token::OAuth2TokenView;
use vstd::prelude::*;
use vstd::string::*;

verus! {

/// Where the broker keeps its connections; the client id follows.
pub const NANGO_CONNECTION_URL: &'static str = "https://api.nango.dev/connection/";

/// The provider configuration that the connection belongs to.
pub const NANGO_X_PROVIDER_CONFIG_KEY: &'static str = "twitter-v2";

/// The HTTP method of the request to the broker.
pub const REQUEST_METHOD: &'static str = "GET";

/// The name of the header that carries the secret key.
pub const AUTHORIZATION_HEADER: &'static str = "Authorization";

/// The detail of the `Decode` error for a document without `credentials.raw`.
pub const MISSING_PAYLOAD: &'static str = "the response holds no credentials.raw";

/// A request to the broker, with its one header.
#[derive(Debug, PartialEq, Eq)]
pub struct TokenRequest {
    pub method: &'static str,
    pub url: String,
    pub header_name: &'static str,
    pub header_value: String,
}

/// How an attempt to reach the broker ended.
#[derive(Debug, PartialEq, Eq)]
pub enum BrokerReply {
    /// No response came; the detail says why.
    Failed(String),
    /// The broker responded with this status and this body.
    Answered { status: u16, body: Vec<u8> },
}

/// The address of the connection of `client_id`.
pub open spec fn connection_url(client_id: Seq<char>) -> Seq<char> {
    NANGO_CONNECTION_URL@ + client_id + "?provider_config_key="@ + NANGO_X_PROVIDER_CONFIG_KEY@
}

/// The value of the `Authorization` header for `secret_key`.
pub open spec fn bearer(secret_key: Seq<char>) -> Seq<char> {
    "Bearer "@ + secret_key
}

/// Whether an HTTP status reports success.
pub open spec fn success(status: u16) -> bool {
    200 <= status <= 299
}

/// The payload of `document`: what it holds under `credentials`, `raw`.
pub open spec fn payload(document: serde_json::Value) -> Option<serde_json::Value> {
    match json_member(document, "credentials"@) {
        Some(credentials) => json_member(credentials, "raw"@),
        None => None,
    }
}

/// What a fetch comes to, as a mathematical value.
pub open spec fn outcome(fetched: Result<OAuth2Token, FetchError>) -> Result<
    OAuth2TokenView,
    FetchErrorView,
> {
    match fetched {
        Ok(token) => Ok(token@),
        Err(error) => Err(error@),
    }
}

/// What a document of the broker comes to: the token of its payload, or a
/// `Decode` error where it has none.
pub open spec fn document_outcome(document: serde_json::Value) -> Result<
    OAuth2TokenView,
    FetchErrorView,
> {
    match payload(document) {
        Some(raw) => Ok(decoded(raw)),
        None => Err(FetchErrorView::Decode(MISSING_PAYLOAD@)),
    }
}

/// Tells whether an HTTP status reports success.
pub fn is_success(status: u16) -> (yes: bool)
    ensures
        yes == success(status),
{
    200 <= status && status <= 299
}

/// The request that asks the broker for the connection of `config`: a `GET`
/// of the connection's address, authorized by the secret key. Client id and
/// secret key go into it as they are.
pub fn token_request(config: &NangoConfig) -> (request: TokenRequest)
    ensures
        request.method@ == REQUEST_METHOD@,
        request.url@ == connection_url(config.client_id@),
        request.header_name@ == AUTHORIZATION_HEADER@,
        request.header_value@ == bearer(config.secret_key@),
{
    let mut url = NANGO_CONNECTION_URL.to_owned();
    url.append(config.client_id.as_str());
    url.append("?provider_config_key=");
    url.append(NANGO_X_PROVIDER_CONFIG_KEY);
    let mut header_value = "Bearer ".to_owned();
    header_value.append(config.secret_key.as_str());
    TokenRequest { method: REQUEST_METHOD, url, header_name: AUTHORIZATION_HEADER, header_value }
}

/// Reads the token from a document of the broker. The document must hold a
/// payload under `credentials`, `raw`; what the payload holds is read as
/// `OAuth2Token::from_raw` reads it.
pub fn token_from_document(document: &serde_json::Value) -> (fetched: Result<
    OAuth2Token,
    FetchError,
>)
    ensures
        outcome(fetched) == document_outcome(*document),
{
    let credentials = match member(document, "credentials") {
        Some(credentials) => credentials,
        None => { return Err(FetchError::Decode(MISSING_PAYLOAD.to_owned())); },
    };
    match member(credentials, "raw") {
        Some(raw) => OAuth2Token::from_raw(raw),
        None => Err(FetchError::Decode(MISSING_PAYLOAD.to_owned())),
    }
}

/// Completes a fetch with the broker's reply to the request of
/// `token_request`. A reply that never came is a `Transport` error. A status
/// that is no success is an `HttpStatus` error, and the body is not looked
/// at. Otherwise the body is read as a JSON document: where it is none, the
/// error is `Decode`; where it is one, the result is that of
/// `token_from_document`.
pub fn fetch_nango_oauth_token(reply: BrokerReply) -> (fetched: Result<OAuth2Token, FetchError>)
    ensures
        match reply {
            BrokerReply::Failed(detail) => outcome(fetched) == Err::<
                OAuth2TokenView,
                FetchErrorView,
            >(FetchErrorView::Transport(detail@)),
            BrokerReply::Answered { status, body } => if !success(status) {
                outcome(fetched) == Err::<OAuth2TokenView, FetchErrorView>(
                    FetchErrorView::HttpStatus(status),
                )
            } else {
                match json_document(body@) {
                    Some(document) => outcome(fetched) == document_outcome(document),
                    None => fetched matches Err(FetchError::Decode(_)),
                }
            },
        },
{
    match reply {
        BrokerReply::Failed(detail) => Err(FetchError::Transport(detail)),
        BrokerReply::Answered { status, body } => {
            if !is_success(status) {
                return Err(FetchError::HttpStatus(status));
            }
            match parse_document(body.as_slice()) {
                Ok(document) => token_from_document(&document),
                Err(error) => Err(FetchError::Decode(error.to_string())),
            }
        },
    }
}

} // verus!
