//! Client logic for an OAuth2 token held by the Nango connection broker:
//! the configuration, the request to the broker, the decoding of its reply
//! into a typed token, and the set of scopes that the token grants.
//!
//! Nothing here touches the environment or the network. The caller looks up
//! the environment variables, sends the request and hands back what came.

pub mod config;
pub mod error;
pub mod fetch;
pub mod json;
pub mod text;
pub mod token;

pub use config::load_nango_config;
pub use config::NangoConfig;
pub use error::ConfigError;
pub use error::FetchError;
pub use fetch::fetch_nango_oauth_token;
pub use fetch::token_from_document;
pub use fetch::token_request;
pub use fetch::BrokerReply;
pub use fetch::TokenRequest;
pub use token::default_required_x_oauth_scopes;
pub use token::OAuth2Token;
