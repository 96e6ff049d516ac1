//! Connection configuration of the client.

use vstd::prelude::*;
use vstd::std_specs::convert::FromSpecImpl;
use crate::error::{ClientError, ClientResult};
use crate::text::str_equals;
use crate::time::{Span, NANOS_PER_SEC};

verus! {

/// Configuration of the HTTP interface.
#[derive(Clone, Debug)]
pub struct HttpConfig {
    /// Base address, such as `http://192.168.1.2:3000`.
    pub url: String,
    /// Token sent in the authorization header.
    pub authorization: Option<String>,
    /// Timeout of every request that has none of its own.
    pub base_timeout: Span,
    /// Timeout of requests that go through the modem, which take longer.
    pub modem_timeout: Option<Span>,
}

impl HttpConfig {
    /// Seconds before a request times out, by default.
    pub const HTTP_DEFAULT_BASE_TIMEOUT: u64 = 5;

    /// Seconds before a request through the modem times out, by default.
    pub const HTTP_DEFAULT_MODEM_TIMEOUT: u64 = 20;

    /// Whether the configuration is the default one for `url`.
    pub open spec fn is_default_for(&self, url: Seq<char>) -> bool {
        &&& self.url@ == url
        &&& self.authorization is None
        &&& self.base_timeout.nanos == 5 * NANOS_PER_SEC
        &&& self.modem_timeout matches Some(t) && t.nanos == 20 * NANOS_PER_SEC
    }

    /// A configuration for `url` with the default timeouts and no token.
    pub fn new(url: &str) -> (config: Self)
        ensures
            config.is_default_for(url@),
    {
        HttpConfig {
            url: url.to_owned(),
            authorization: None,
            base_timeout: Span::from_secs(Self::HTTP_DEFAULT_BASE_TIMEOUT),
            modem_timeout: Some(Span::from_secs(Self::HTTP_DEFAULT_MODEM_TIMEOUT)),
        }
    }

    /// Sets the authorization token.
    pub fn with_auth(self, token: &str) -> (config: Self)
        ensures
            config.authorization matches Some(t) && t@ == token@,
            config.url == self.url,
            config.base_timeout == self.base_timeout,
            config.modem_timeout == self.modem_timeout,
    {
        let mut config = self;
        config.authorization = Some(token.to_owned());
        config
    }

    /// Sets the timeout of ordinary requests.
    pub fn with_base_timeout(self, timeout: Span) -> (config: Self)
        ensures
            config == (HttpConfig { base_timeout: timeout, ..self }),
    {
        let mut config = self;
        config.base_timeout = timeout;
        config
    }

    /// Sets the timeout of requests through the modem.
    pub fn with_modem_timeout(self, timeout: Option<Span>) -> (config: Self)
        ensures
            config == (HttpConfig { modem_timeout: timeout, ..self }),
    {
        let mut config = self;
        config.modem_timeout = timeout;
        config
    }
}

impl Default for HttpConfig {
    fn default() -> (config: Self)
        ensures
            config.is_default_for("http://localhost:3000"@),
    {
        HttpConfig::new("http://localhost:3000")
    }
}

/// Configuration of the WebSocket event feed.
#[derive(Clone, Debug)]
pub struct WebSocketConfig {
    /// Address of the event channel, such as `ws://192.168.1.2:3000/ws`.
    pub url: String,
    /// Token sent in the authorization header.
    pub authorization: Option<String>,
    /// Whether to connect again after the connection is lost.
    pub auto_reconnect: bool,
    /// Base of the delay between attempts to connect.
    pub reconnect_interval: Span,
    /// Time between two pings.
    pub ping_interval: Span,
    /// Time without a pong after which the connection counts as dead.
    pub ping_timeout: Span,
    /// How many times to connect again before giving up; `None` is no limit.
    pub max_reconnect_attempts: Option<u32>,
    /// The events to listen to; the server sends all where this is `None`.
    pub filtered_events: Option<Vec<String>>,
}

impl WebSocketConfig {
    /// Seconds between attempts to connect, by default; later attempts wait longer.
    pub const WS_DEFAULT_RECONNECT_INTERVAL: u64 = 5;

    /// Seconds between pings, by default.
    pub const WS_DEFAULT_PING_INTERVAL: u64 = 10;

    /// Seconds without a pong that count as a timeout, by default.
    pub const WS_DEFAULT_PING_TIMEOUT: u64 = 30;

    /// Whether the configuration is the default one for `url`.
    pub open spec fn is_default_for(&self, url: Seq<char>) -> bool {
        &&& self.url@ == url
        &&& self.authorization is None
        &&& self.auto_reconnect
        &&& self.reconnect_interval.nanos == 5 * NANOS_PER_SEC
        &&& self.ping_interval.nanos == 10 * NANOS_PER_SEC
        &&& self.ping_timeout.nanos == 30 * NANOS_PER_SEC
        &&& self.max_reconnect_attempts is None
        &&& self.filtered_events is None
    }

    /// A configuration for `url` with the default policy: reconnect without
    /// limit, no token, no filter.
    pub fn new(url: &str) -> (config: Self)
        ensures
            config.is_default_for(url@),
    {
        WebSocketConfig {
            url: url.to_owned(),
            authorization: None,
            auto_reconnect: true,
            reconnect_interval: Span::from_secs(Self::WS_DEFAULT_RECONNECT_INTERVAL),
            ping_interval: Span::from_secs(Self::WS_DEFAULT_PING_INTERVAL),
            ping_timeout: Span::from_secs(Self::WS_DEFAULT_PING_TIMEOUT),
            max_reconnect_attempts: None,
            filtered_events: None,
        }
    }

    /// Sets the authorization token.
    pub fn with_auth(self, token: &str) -> (config: Self)
        ensures
            config.authorization matches Some(t) && t@ == token@,
            config.url == self.url,
            config.auto_reconnect == self.auto_reconnect,
            config.reconnect_interval == self.reconnect_interval,
            config.ping_interval == self.ping_interval,
            config.ping_timeout == self.ping_timeout,
            config.max_reconnect_attempts == self.max_reconnect_attempts,
            config.filtered_events == self.filtered_events,
    {
        let mut config = self;
        config.authorization = Some(token.to_owned());
        config
    }

    /// Switches reconnecting on or off.
    pub fn with_auto_reconnect(self, enabled: bool) -> (config: Self)
        ensures
            config == (WebSocketConfig { auto_reconnect: enabled, ..self }),
    {
        let mut config = self;
        config.auto_reconnect = enabled;
        config
    }

    /// Sets the base of the delay between attempts.
    pub fn with_reconnect_interval(self, interval: Span) -> (config: Self)
        ensures
            config == (WebSocketConfig { reconnect_interval: interval, ..self }),
    {
        let mut config = self;
        config.reconnect_interval = interval;
        config
    }

    /// Sets the time between pings.
    pub fn with_ping_interval(self, interval: Span) -> (config: Self)
        ensures
            config == (WebSocketConfig { ping_interval: interval, ..self }),
    {
        let mut config = self;
        config.ping_interval = interval;
        config
    }

    /// Sets the time without a pong that counts as a timeout.
    pub fn with_ping_timeout(self, timeout: Span) -> (config: Self)
        ensures
            config == (WebSocketConfig { ping_timeout: timeout, ..self }),
    {
        let mut config = self;
        config.ping_timeout = timeout;
        config
    }

    /// Sets the limit of attempts to connect again; `None` lifts it.
    pub fn with_max_reconnect_attempts(self, max_attempts: Option<u32>) -> (config: Self)
        ensures
            config == (WebSocketConfig { max_reconnect_attempts: max_attempts, ..self }),
    {
        let mut config = self;
        config.max_reconnect_attempts = max_attempts;
        config
    }

    /// Sets the events to listen to, which go into the connection's query
    /// string; `None` switches filtering off.
    pub fn with_filtered_events(self, events: Option<Vec<String>>) -> (config: Self)
        ensures
            config == (WebSocketConfig { filtered_events: events, ..self }),
    {
        let mut config = self;
        config.filtered_events = events;
        config
    }
}

impl Default for WebSocketConfig {
    fn default() -> (config: Self)
        ensures
            config.is_default_for("ws://localhost:3000/ws"@),
    {
        WebSocketConfig::new("ws://localhost:3000/ws")
    }
}

/// What the file system says of a certificate path.
#[derive(Clone, Debug)]
pub struct PathProbe {
    /// Whether anything exists at the path.
    pub exists: bool,
    /// Whether it is a regular file.
    pub is_file: bool,
    /// The canonical form of the path, where it could be resolved.
    pub canonical: Option<String>,
    /// The extension of the file name, without the dot.
    pub extension: Option<String>,
}

/// Whether a file with this extension is taken as a certificate.
pub open spec fn is_certificate_extension(extension: Option<Seq<char>>) -> bool {
    extension matches Some(e) && (e == "pem"@ || e == "crt"@ || e == "der"@)
}

/// The reason for which a probed path is refused, if it is.
pub open spec fn path_refusal(probe: PathProbe) -> Option<&'static str> {
    if !probe.exists {
        Some("Certificate filepath does not exist")
    } else if !probe.is_file {
        Some("Certificate filepath is not a file")
    } else if probe.canonical is None {
        Some("Invalid certificate path")
    } else if !is_certificate_extension(
        match probe.extension {
            Some(e) => Some(e@),
            None => None,
        },
    ) {
        Some("Invalid certificate file extension")
    } else {
        None
    }
}

/// TLS configuration, for both interfaces.
#[derive(Clone, Debug)]
pub struct TLSConfig {
    /// Canonical path of the certificate file.
    pub certificate: String,
}

impl TLSConfig {
    /// A TLS configuration for the certificate that was probed: the path must
    /// exist, be a file, resolve, and end in `pem`, `crt` or `der`.
    pub fn new(probe: PathProbe) -> (r: ClientResult<Self>)
        ensures
            match path_refusal(probe) {
                Some(reason) => r == Err::<Self, ClientError>(ClientError::ConfigError(reason)),
                None => r matches Ok(tls) && Some(tls.certificate) == probe.canonical,
            },
    {
        match Self::verify_path(probe) {
            Ok(certificate) => Ok(TLSConfig { certificate }),
            Err(e) => Err(e),
        }
    }

    /// Checks a probed certificate path and returns its canonical form. The
    /// checks are made in this order: existence, being a file, resolving, and
    /// the extension.
    pub fn verify_path(probe: PathProbe) -> (r: ClientResult<String>)
        ensures
            match path_refusal(probe) {
                Some(reason) => r == Err::<String, ClientError>(ClientError::ConfigError(reason)),
                None => r matches Ok(path) && Some(path) == probe.canonical,
            },
    {
        if !probe.exists {
            return Err(ClientError::ConfigError("Certificate filepath does not exist"));
        }
        if !probe.is_file {
            return Err(ClientError::ConfigError("Certificate filepath is not a file"));
        }
        let canonical = match probe.canonical {
            Some(path) => path,
            None => {
                return Err(ClientError::ConfigError("Invalid certificate path"));
            },
        };
        let accepted = match &probe.extension {
            Some(e) => str_equals(e.as_str(), "pem") || str_equals(e.as_str(), "crt")
                || str_equals(e.as_str(), "der"),
            None => false,
        };
        if accepted {
            Ok(canonical)
        } else {
            Err(ClientError::ConfigError("Invalid certificate file extension"))
        }
    }
}

/// Configuration of the whole client.
#[derive(Clone, Debug)]
pub struct ClientConfig {
    /// TLS configuration, for both interfaces.
    pub tls: Option<TLSConfig>,
    /// Configuration of the HTTP interface.
    pub http: Option<HttpConfig>,
    /// Configuration of the WebSocket interface.
    pub websocket: Option<WebSocketConfig>,
}

impl ClientConfig {
    /// A configuration with the HTTP interface only.
    pub fn http_only(url: &str) -> (config: Self)
        ensures
            config.tls is None,
            config.websocket is None,
            config.http matches Some(h) && h.is_default_for(url@),
    {
        ClientConfig { tls: None, http: Some(HttpConfig::new(url)), websocket: None }
    }

    /// A configuration with the WebSocket interface only.
    pub fn websocket_only(ws_url: &str) -> (config: Self)
        ensures
            config.tls is None,
            config.http is None,
            config.websocket matches Some(w) && w.is_default_for(ws_url@),
    {
        ClientConfig { tls: None, http: None, websocket: Some(WebSocketConfig::new(ws_url)) }
    }

    /// A configuration with both interfaces.
    pub fn both(http_url: &str, ws_url: &str) -> (config: Self)
        ensures
            config.tls is None,
            config.http matches Some(h) && h.is_default_for(http_url@),
            config.websocket matches Some(w) && w.is_default_for(ws_url@),
    {
        ClientConfig {
            tls: None,
            http: Some(HttpConfig::new(http_url)),
            websocket: Some(WebSocketConfig::new(ws_url)),
        }
    }

    /// A configuration from the configurations of the two interfaces.
    pub fn from_parts(http: Option<HttpConfig>, websocket: Option<WebSocketConfig>) -> (config:
        Self)
        ensures
            config == (ClientConfig { tls: None, http, websocket }),
    {
        ClientConfig { tls: None, http, websocket }
    }

    /// Adds a TLS configuration.
    pub fn add_tls(self, tls: TLSConfig) -> (config: Self)
        ensures
            config == (ClientConfig { tls: Some(tls), ..self }),
    {
        let mut config = self;
        config.tls = Some(tls);
        config
    }

    /// Sets the authorization token of every interface that is configured.
    pub fn with_auth(self, token: &str) -> (config: Self)
        ensures
            config.tls == self.tls,
            match self.http {
                Some(h) => config.http matches Some(c) && c.url == h.url && c.base_timeout
                    == h.base_timeout && c.modem_timeout == h.modem_timeout && (
                c.authorization matches Some(t) && t@ == token@),
                None => config.http is None,
            },
            match self.websocket {
                Some(w) => config.websocket matches Some(c) && c.url == w.url && c.auto_reconnect
                    == w.auto_reconnect && c.reconnect_interval == w.reconnect_interval
                    && c.ping_interval == w.ping_interval && c.ping_timeout == w.ping_timeout
                    && c.max_reconnect_attempts == w.max_reconnect_attempts && c.filtered_events
                    == w.filtered_events && (c.authorization matches Some(t) && t@ == token@),
                None => config.websocket is None,
            },
    {
        let http = match self.http {
            Some(h) => Some(h.with_auth(token)),
            None => None,
        };
        let websocket = match self.websocket {
            Some(w) => Some(w.with_auth(token)),
            None => None,
        };
        ClientConfig { tls: self.tls, http, websocket }
    }

    /// Sets the certificate of the TLS configuration, which is added where
    /// there is none, to the path that was probed.
    pub fn with_certificate(self, probe: PathProbe) -> (r: ClientResult<Self>)
        ensures
            match path_refusal(probe) {
                Some(reason) => r == Err::<Self, ClientError>(ClientError::ConfigError(reason)),
                None => r matches Ok(config) && config.http == self.http && config.websocket
                    == self.websocket && (config.tls matches Some(tls) && Some(tls.certificate)
                    == probe.canonical),
            },
    {
        match TLSConfig::verify_path(probe) {
            Ok(certificate) => Ok(
                ClientConfig {
                    tls: Some(TLSConfig { certificate }),
                    http: self.http,
                    websocket: self.websocket,
                },
            ),
            Err(e) => Err(e),
        }
    }

    /// Changes the HTTP configuration with `f`, where there is one.
    pub fn configure_http<F>(self, f: F) -> (config: Self) where
        F: FnOnce(HttpConfig) -> HttpConfig,
        requires
            self.http matches Some(h) ==> f.requires((h,)),
        ensures
            config.tls == self.tls,
            config.websocket == self.websocket,
            match self.http {
                Some(h) => config.http matches Some(c) && f.ensures((h,), c),
                None => config.http is None,
            },
    {
        let http = match self.http {
            Some(h) => Some(f(h)),
            None => None,
        };
        ClientConfig { tls: self.tls, http, websocket: self.websocket }
    }

    /// Changes the WebSocket configuration with `f`, where there is one.
    pub fn configure_websocket<F>(self, f: F) -> (config: Self) where
        F: FnOnce(WebSocketConfig) -> WebSocketConfig,
        requires
            self.websocket matches Some(w) ==> f.requires((w,)),
        ensures
            config.tls == self.tls,
            config.http == self.http,
            match self.websocket {
                Some(w) => config.websocket matches Some(c) && f.ensures((w,), c),
                None => config.websocket is None,
            },
    {
        let websocket = match self.websocket {
            Some(w) => Some(f(w)),
            None => None,
        };
        ClientConfig { tls: self.tls, http: self.http, websocket }
    }

    /// Adds a WebSocket configuration.
    pub fn add_websocket(self, websocket: WebSocketConfig) -> (config: Self)
        ensures
            config == (ClientConfig { websocket: Some(websocket), ..self }),
    {
        let mut config = self;
        config.websocket = Some(websocket);
        config
    }
}

impl Default for ClientConfig {
    fn default() -> (config: Self)
        ensures
            config.tls is None,
            config.http matches Some(h) && h.is_default_for("http://localhost:3000"@),
            config.websocket matches Some(w) && w.is_default_for("ws://localhost:3000/ws"@),
    {
        ClientConfig {
            tls: None,
            http: Some(HttpConfig::default()),
            websocket: Some(WebSocketConfig::default()),
        }
    }
}

impl From<HttpConfig> for ClientConfig {
    /// The default configuration with `http` as its HTTP interface.
    fn from(http: HttpConfig) -> (config: Self)
        ensures
            config.tls is None,
            config.http == Some(http),
            config.websocket matches Some(w) && w.is_default_for("ws://localhost:3000/ws"@),
    {
        ClientConfig { tls: None, http: Some(http), websocket: Some(WebSocketConfig::default()) }
    }
}

impl FromSpecImpl<HttpConfig> for ClientConfig {
    open spec fn obeys_from_spec() -> bool {
        false
    }

    open spec fn from_spec(http: HttpConfig) -> Self {
        arbitrary()
    }
}

impl From<WebSocketConfig> for ClientConfig {
    /// The default configuration with `websocket` as its WebSocket interface.
    fn from(websocket: WebSocketConfig) -> (config: Self)
        ensures
            config.tls is None,
            config.websocket == Some(websocket),
            config.http matches Some(h) && h.is_default_for("http://localhost:3000"@),
    {
        ClientConfig { tls: None, http: Some(HttpConfig::default()), websocket: Some(websocket) }
    }
}

impl FromSpecImpl<WebSocketConfig> for ClientConfig {
    open spec fn obeys_from_spec() -> bool {
        false
    }

    open spec fn from_spec(websocket: WebSocketConfig) -> Self {
        arbitrary()
    }
}

} // verus!
