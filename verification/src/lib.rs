//! Client for an SMS gateway: configuration, wire types, the requests of the
//! HTTP interface and the rules by which its answers are read, and the state
//! machines that keep the WebSocket event feed alive.

pub mod address;
pub mod config;
pub mod error;
pub mod http;
pub mod text;
pub mod time;
pub mod types;
pub mod ws;

use vstd::prelude::*;
use crate::address::url_serialization;
use crate::config::ClientConfig;
use crate::error::{ClientError, ClientResult};
use crate::http::error::HttpError;
use crate::http::HttpClient;
use crate::ws::client::{StopPlan, WebSocketClient};
use crate::ws::error::WebsocketError;
use crate::ws::worker::{ControlMessage, WorkerLoop};

verus! {

/// The client: an HTTP interface, a WebSocket interface, or both.
#[derive(Debug, Clone)]
pub struct Client {
    /// The HTTP client, where the configuration has an HTTP part.
    pub http_client: Option<HttpClient>,
    /// The WebSocket client, where the configuration has a WebSocket part.
    pub ws_client: Option<WebSocketClient>,
}

impl Client {
    /// A client for a configuration. It fails where the address of the HTTP
    /// interface does not parse.
    pub fn new(config: ClientConfig) -> (r: ClientResult<Self>)
        ensures
            match config.http {
                Some(http) if url_serialization(http.url@) is None => r matches Err(
                    ClientError::HttpError(HttpError::UrlParseError(_)),
                ),
                _ => {
                    &&& r matches Ok(client)
                    &&& client.http_client is Some == config.http is Some
                    &&& config.http matches Some(http) ==> {
                        &&& client.http_client matches Some(h)
                        &&& Some(h.base_url@) == url_serialization(http.url@)
                        &&& h.authorization == http.authorization
                        &&& h.modem_timeout == http.modem_timeout
                        &&& h.base_timeout == http.base_timeout
                    }
                    &&& match config.websocket {
                        Some(websocket) => client.ws_client == Some(
                            WebSocketClient {
                                config: websocket,
                                tls_config: config.tls,
                                has_callback: false,
                                has_control: false,
                                worker_running: false,
                            },
                        ),
                        None => client.ws_client is None,
                    }
                },
            },
    {
        let http_client = match config.http {
            Some(http_config) => match HttpClient::new(http_config) {
                Ok(client) => Some(client),
                Err(e) => {
                    return Err(ClientError::HttpError(e));
                },
            },
            None => None,
        };
        let ws_client = match config.websocket {
            Some(ws_config) => Some(WebSocketClient::new(ws_config, config.tls)),
            None => None,
        };
        Ok(Client { http_client, ws_client })
    }

    /// The HTTP client; a configuration error where there is none.
    pub fn http(&self) -> (r: ClientResult<&HttpClient>)
        ensures
            match self.http_client {
                Some(client) => r == Ok::<&HttpClient, ClientError>(&client),
                None => r == Err::<&HttpClient, ClientError>(ClientError::ConfigError("HttpClient")),
            },
    {
        match &self.http_client {
            Some(client) => Ok(client),
            None => Err(ClientError::ConfigError("HttpClient")),
        }
    }

    /// Records that the application has set its callback; a configuration
    /// error where there is no WebSocket client.
    pub fn on_message(&mut self) -> (r: ClientResult<()>)
        ensures
            final(self).http_client == old(self).http_client,
            match old(self).ws_client {
                Some(ws) => r is Ok && final(self).ws_client == Some(
                    WebSocketClient { has_callback: true, ..ws },
                ),
                None => r == Err::<(), ClientError>(ClientError::ConfigError("WebSocketClient"))
                    && final(self).ws_client is None,
            },
    {
        match &mut self.ws_client {
            Some(ws) => {
                ws.on_message();
                Ok(())
            },
            None => Err(ClientError::ConfigError("WebSocketClient")),
        }
    }

    /// Starts the worker in the background; a configuration error where
    /// there is no WebSocket client, and `AlreadyConnected` where a worker runs.
    pub fn start_background_websocket(&mut self) -> (r: ClientResult<WorkerLoop>)
        ensures
            final(self).http_client == old(self).http_client,
            match old(self).ws_client {
                None => r == Err::<WorkerLoop, ClientError>(
                    ClientError::ConfigError("WebsocketConfig"),
                ) && final(self).ws_client is None,
                Some(ws) => if ws.worker_running {
                    r == Err::<WorkerLoop, ClientError>(
                        ClientError::WebsocketError(WebsocketError::AlreadyConnected),
                    ) && final(self).ws_client == old(self).ws_client
                } else {
                    &&& r == Ok::<WorkerLoop, ClientError>(WorkerLoop::spec_new(ws.config))
                    &&& final(self).ws_client == Some(
                        WebSocketClient { has_control: true, worker_running: true, ..ws },
                    )
                },
            },
    {
        match &mut self.ws_client {
            Some(ws) => match ws.start_background() {
                Ok(worker) => Ok(worker),
                Err(e) => Err(ClientError::WebsocketError(e)),
            },
            None => Err(ClientError::ConfigError("WebsocketConfig")),
        }
    }

    /// Starts a worker that the caller runs itself; a configuration error
    /// where there is no WebSocket client.
    pub fn start_blocking_websocket(&mut self) -> (r: ClientResult<WorkerLoop>)
        ensures
            final(self).http_client == old(self).http_client,
            match old(self).ws_client {
                None => r == Err::<WorkerLoop, ClientError>(
                    ClientError::ConfigError("WebsocketConfig"),
                ) && final(self).ws_client is None,
                Some(ws) => {
                    &&& r == Ok::<WorkerLoop, ClientError>(WorkerLoop::spec_new(ws.config))
                    &&& final(self).ws_client == Some(WebSocketClient { has_control: true, ..ws })
                },
            },
    {
        match &mut self.ws_client {
            Some(ws) => Ok(ws.start_blocking()),
            None => Err(ClientError::ConfigError("WebsocketConfig")),
        }
    }

    /// Stops the worker; a configuration error where there is no WebSocket client.
    pub fn stop_background_websocket(&mut self) -> (r: ClientResult<StopPlan>)
        ensures
            final(self).http_client == old(self).http_client,
            match old(self).ws_client {
                None => r == Err::<StopPlan, ClientError>(
                    ClientError::ConfigError("WebsocketConfig"),
                ) && final(self).ws_client is None,
                Some(ws) => {
                    &&& r == Ok::<StopPlan, ClientError>(ws.stop_plan())
                    &&& final(self).ws_client == Some(ws.after_stop())
                },
            },
    {
        match &mut self.ws_client {
            Some(ws) => Ok(ws.stop_background()),
            None => Err(ClientError::ConfigError("WebsocketConfig")),
        }
    }

    /// Whether the connection of the event feed is up, given the flag that the
    /// worker keeps: false without a WebSocket client, and else what that
    /// client says.
    pub fn is_websocket_connected(&self, worker_connected: bool) -> (connected: bool)
        ensures
            connected == match self.ws_client {
                Some(ws) => ws.spec_is_connected(worker_connected),
                None => false,
            },
    {
        match &self.ws_client {
            Some(ws) => ws.is_connected(worker_connected),
            None => false,
        }
    }

    /// Asks for a new connection: the command to send, `NoWebsocketClient`
    /// where there is no WebSocket client, and `NotConnected` where no worker
    /// was started.
    pub fn reconnect_websocket(&self) -> (r: ClientResult<ControlMessage>)
        ensures
            r == match self.ws_client {
                None => Err::<ControlMessage, ClientError>(ClientError::NoWebsocketClient),
                Some(ws) => if ws.has_control {
                    Ok(ControlMessage::Reconnect)
                } else {
                    Err(ClientError::WebsocketError(WebsocketError::NotConnected))
                },
            },
    {
        match &self.ws_client {
            Some(ws) => match ws.reconnect() {
                Ok(command) => Ok(command),
                Err(e) => Err(ClientError::WebsocketError(e)),
            },
            None => Err(ClientError::NoWebsocketClient),
        }
    }
}

} // verus!
