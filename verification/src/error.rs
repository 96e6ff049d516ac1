//! Errors of the client as a whole.

use vstd::prelude::*;
use vstd::std_specs::convert::FromSpecImpl;
use crate::text::concatenated;
use crate::http::error::HttpError;
use crate::ws::error::WebsocketError;

verus! {

/// Errors of the client.
#[derive(Debug, Clone, PartialEq)]
pub enum ClientError {
    /// An error of the HTTP interface.
    HttpError(HttpError),
    /// An error of the WebSocket interface.
    WebsocketError(WebsocketError),
    /// A configuration value is missing or invalid; holds what is wrong.
    ConfigError(&'static str),
    /// The client was built without a WebSocket configuration.
    NoWebsocketClient,
}

/// Result of client operations.
pub type ClientResult<T> = Result<T, ClientError>;

impl ClientError {
    /// The text that describes the error: that of the interface's error where
    /// it holds one.
    pub open spec fn spec_to_string(&self) -> Seq<char> {
        match self {
            ClientError::HttpError(error) => error.spec_to_string(),
            ClientError::WebsocketError(error) => error.spec_to_string(),
            ClientError::ConfigError(what) => "Missing/invalid required configuration: "@ + what@,
            ClientError::NoWebsocketClient => "No WebSocket client initialized"@,
        }
    }

    /// The text that describes the error.
    pub fn to_string(&self) -> (text: String)
        ensures
            text@ == self.spec_to_string(),
    {
        match self {
            ClientError::HttpError(error) => error.to_string(),
            ClientError::WebsocketError(error) => error.to_string(),
            ClientError::ConfigError(what) => concatenated(
                "Missing/invalid required configuration: ",
                what,
            ),
            ClientError::NoWebsocketClient => "No WebSocket client initialized".to_owned(),
        }
    }
}

impl From<HttpError> for ClientError {
    fn from(error: HttpError) -> (wrapped: Self) {
        ClientError::HttpError(error)
    }
}

impl FromSpecImpl<HttpError> for ClientError {
    open spec fn obeys_from_spec() -> bool {
        true
    }

    open spec fn from_spec(error: HttpError) -> Self {
        ClientError::HttpError(error)
    }
}

impl From<WebsocketError> for ClientError {
    fn from(error: WebsocketError) -> (wrapped: Self) {
        ClientError::WebsocketError(error)
    }
}

impl FromSpecImpl<WebsocketError> for ClientError {
    open spec fn obeys_from_spec() -> bool {
        true
    }

    open spec fn from_spec(error: WebsocketError) -> Self {
        ClientError::WebsocketError(error)
    }
}

} // verus!
