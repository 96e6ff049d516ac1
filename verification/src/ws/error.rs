//! Errors of the WebSocket interface.

use vstd::prelude::*;
use crate::text::concatenated;

verus! {

/// A connection address that could not be read.
#[derive(Debug, Clone, PartialEq)]
pub enum UrlError {
    /// The address is not a valid URI for a request; holds the parser's message.
    Http(String),
    /// The address could not be parsed as a URL; holds the parser's message.
    Url(String),
}

/// Errors of WebSocket operations.
#[derive(Debug, Clone, PartialEq)]
pub enum WebsocketError {
    /// The configured address cannot be made into a request.
    InvalidRequest,
    /// The connection failed; holds the transport's message.
    ConnectionError(String),
    /// The address could not be parsed or extended.
    UrlError(UrlError),
    /// An HTTP-level error while the connection was set up; holds its message.
    HttpError(String),
    /// The authorization token cannot be sent as a header value.
    InvalidHeader,
    /// A message could not be encoded or decoded; holds the codec's message.
    JsonError(String),
    /// The server answered the handshake with 401: the token is missing or wrong.
    Unauthorized,
    /// A worker is already running.
    AlreadyConnected,
    /// No worker is running.
    NotConnected,
    /// A frame could not be sent.
    SendError,
    /// The control channel to the worker is closed.
    ChannelError,
    /// An operation timed out.
    Timeout,
    /// The trust anchor could not be loaded; holds the reason.
    TLSError(String),
}

/// Result of WebSocket operations.
pub type WebsocketResult<T> = Result<T, WebsocketError>;

impl UrlError {
    /// The text that describes the error: the parser's message.
    pub open spec fn spec_to_string(&self) -> Seq<char> {
        match self {
            UrlError::Http(message) => message@,
            UrlError::Url(message) => message@,
        }
    }

    /// The text that describes the error.
    pub fn to_string(&self) -> (text: String)
        ensures
            text@ == self.spec_to_string(),
    {
        match self {
            UrlError::Http(message) => message.clone(),
            UrlError::Url(message) => message.clone(),
        }
    }
}

impl WebsocketError {
    /// The text that describes the error.
    pub open spec fn spec_to_string(&self) -> Seq<char> {
        match self {
            WebsocketError::InvalidRequest => "Invalid WebSocket request URL configured"@,
            WebsocketError::ConnectionError(message) => "WebSocket connection failed: "@
                + message@,
            WebsocketError::UrlError(error) => "Invalid WebSocket URL: "@ + error.spec_to_string(),
            WebsocketError::HttpError(message) => "HTTP error: "@ + message@,
            WebsocketError::InvalidHeader =>
                "Invalid WebSocket header value: failed to parse header value"@,
            WebsocketError::JsonError(message) => "JSON error: "@ + message@,
            WebsocketError::Unauthorized => "The WebSocket connection was unauthorized"@,
            WebsocketError::AlreadyConnected => "WebSocket is already connected"@,
            WebsocketError::NotConnected => "WebSocket is not connected"@,
            WebsocketError::SendError => "Failed to send message to WebSocket"@,
            WebsocketError::ChannelError => "Internal channel communication error"@,
            WebsocketError::Timeout => "Operation timed out"@,
            WebsocketError::TLSError(message) => "TLS error: "@ + message@,
        }
    }

    /// The text that describes the error.
    pub fn to_string(&self) -> (text: String)
        ensures
            text@ == self.spec_to_string(),
    {
        match self {
            WebsocketError::InvalidRequest => "Invalid WebSocket request URL configured".to_owned(),
            WebsocketError::ConnectionError(message) => concatenated(
                "WebSocket connection failed: ",
                message.as_str(),
            ),
            WebsocketError::UrlError(error) => concatenated(
                "Invalid WebSocket URL: ",
                error.to_string().as_str(),
            ),
            WebsocketError::HttpError(message) => concatenated("HTTP error: ", message.as_str()),
            WebsocketError::InvalidHeader => {
                "Invalid WebSocket header value: failed to parse header value".to_owned()
            },
            WebsocketError::JsonError(message) => concatenated("JSON error: ", message.as_str()),
            WebsocketError::Unauthorized => "The WebSocket connection was unauthorized".to_owned(),
            WebsocketError::AlreadyConnected => "WebSocket is already connected".to_owned(),
            WebsocketError::NotConnected => "WebSocket is not connected".to_owned(),
            WebsocketError::SendError => "Failed to send message to WebSocket".to_owned(),
            WebsocketError::ChannelError => "Internal channel communication error".to_owned(),
            WebsocketError::Timeout => "Operation timed out".to_owned(),
            WebsocketError::TLSError(message) => concatenated("TLS error: ", message.as_str()),
        }
    }
}

} // verus!
