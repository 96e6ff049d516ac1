//! The WebSocket event feed of the gateway.

pub mod client;
pub mod connection;
pub mod error;
pub mod session;
pub mod tls;
pub mod types;
pub mod worker;

pub use client::WebSocketClient;
pub use error::{WebsocketError, WebsocketResult};
pub use types::WebsocketMessage;
