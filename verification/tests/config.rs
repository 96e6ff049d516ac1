use sms_client::config::{ClientConfig, HttpConfig, PathProbe, TLSConfig, WebSocketConfig};
use sms_client::error::ClientError;
use sms_client::time::Span;

fn good_probe() -> PathProbe {
    PathProbe {
        exists: true,
        is_file: true,
        canonical: Some("/etc/ssl/gateway.pem".to_string()),
        extension: Some("pem".to_string()),
    }
}

#[test]
fn http_config_defaults() {
    let config = HttpConfig::new("http://192.168.1.2:3000");
    assert_eq!(config.url, "http://192.168.1.2:3000");
    assert_eq!(config.authorization, None);
    assert_eq!(config.base_timeout, Span::from_secs(5));
    assert_eq!(config.modem_timeout, Some(Span::from_secs(20)));
    assert_eq!(HttpConfig::HTTP_DEFAULT_BASE_TIMEOUT, 5);
    assert_eq!(HttpConfig::HTTP_DEFAULT_MODEM_TIMEOUT, 20);
    assert_eq!(HttpConfig::default().url, "http://localhost:3000");
}

#[test]
fn http_config_builders() {
    let config = HttpConfig::new("http://h")
        .with_auth("secret")
        .with_base_timeout(Span::from_secs(30))
        .with_modem_timeout(None);
    assert_eq!(config.url, "http://h");
    assert_eq!(config.authorization, Some("secret".to_string()));
    assert_eq!(config.base_timeout, Span::from_secs(30));
    assert_eq!(config.modem_timeout, None);
}

#[test]
fn websocket_config_defaults() {
    let config = WebSocketConfig::new("ws://192.168.1.2:3000/ws");
    assert_eq!(config.url, "ws://192.168.1.2:3000/ws");
    assert_eq!(config.authorization, None);
    assert!(config.auto_reconnect);
    assert_eq!(config.reconnect_interval, Span::from_secs(5));
    assert_eq!(config.ping_interval, Span::from_secs(10));
    assert_eq!(config.ping_timeout, Span::from_secs(30));
    assert_eq!(config.max_reconnect_attempts, None);
    assert_eq!(config.filtered_events, None);
    assert_eq!(WebSocketConfig::WS_DEFAULT_RECONNECT_INTERVAL, 5);
    assert_eq!(WebSocketConfig::WS_DEFAULT_PING_INTERVAL, 10);
    assert_eq!(WebSocketConfig::WS_DEFAULT_PING_TIMEOUT, 30);
    assert_eq!(WebSocketConfig::default().url, "ws://localhost:3000/ws");
}

#[test]
fn websocket_config_builders() {
    let config = WebSocketConfig::new("ws://h/ws")
        .with_auth("token123")
        .with_auto_reconnect(false)
        .with_reconnect_interval(Span::from_secs(1))
        .with_ping_interval(Span::from_secs(60))
        .with_ping_timeout(Span::from_secs(90))
        .with_max_reconnect_attempts(Some(10))
        .with_filtered_events(Some(vec!["incoming".to_string()]));
    assert_eq!(config.url, "ws://h/ws");
    assert_eq!(config.authorization, Some("token123".to_string()));
    assert!(!config.auto_reconnect);
    assert_eq!(config.reconnect_interval, Span::from_secs(1));
    assert_eq!(config.ping_interval, Span::from_secs(60));
    assert_eq!(config.ping_timeout, Span::from_secs(90));
    assert_eq!(config.max_reconnect_attempts, Some(10));
    assert_eq!(config.filtered_events, Some(vec!["incoming".to_string()]));
    let cleared = config.with_filtered_events(None).with_max_reconnect_attempts(None);
    assert_eq!(cleared.filtered_events, None);
    assert_eq!(cleared.max_reconnect_attempts, None);
}

#[test]
fn tls_config_takes_the_canonical_path() {
    let tls = TLSConfig::new(good_probe()).unwrap();
    assert_eq!(tls.certificate, "/etc/ssl/gateway.pem");
    for ext in ["pem", "crt", "der"] {
        let probe = PathProbe { extension: Some(ext.to_string()), ..good_probe() };
        assert_eq!(TLSConfig::verify_path(probe).unwrap(), "/etc/ssl/gateway.pem");
    }
}

#[test]
fn tls_config_refuses_in_order() {
    let missing = PathProbe { exists: false, is_file: false, canonical: None, extension: None };
    assert_eq!(
        TLSConfig::verify_path(missing).unwrap_err(),
        ClientError::ConfigError("Certificate filepath does not exist")
    );
    let directory = PathProbe { is_file: false, canonical: None, extension: None, ..good_probe() };
    assert_eq!(
        TLSConfig::verify_path(directory).unwrap_err(),
        ClientError::ConfigError("Certificate filepath is not a file")
    );
    let unresolved = PathProbe { canonical: None, extension: Some("txt".to_string()), ..good_probe() };
    assert_eq!(
        TLSConfig::verify_path(unresolved).unwrap_err(),
        ClientError::ConfigError("Invalid certificate path")
    );
    for ext in [None, Some("txt".to_string()), Some("PEM".to_string()), Some("".to_string())] {
        let probe = PathProbe { extension: ext, ..good_probe() };
        assert_eq!(
            TLSConfig::new(probe).unwrap_err(),
            ClientError::ConfigError("Invalid certificate file extension")
        );
    }
}

#[test]
fn client_config_constructors() {
    let http = ClientConfig::http_only("http://h");
    assert!(http.tls.is_none() && http.websocket.is_none());
    assert_eq!(http.http.unwrap().url, "http://h");

    let ws = ClientConfig::websocket_only("ws://h/ws");
    assert!(ws.tls.is_none() && ws.http.is_none());
    assert_eq!(ws.websocket.unwrap().url, "ws://h/ws");

    let both = ClientConfig::both("http://h", "ws://h/ws");
    assert!(both.tls.is_none());
    assert_eq!(both.http.unwrap().url, "http://h");
    assert_eq!(both.websocket.unwrap().url, "ws://h/ws");

    let parts = ClientConfig::from_parts(None, Some(WebSocketConfig::new("ws://p")));
    assert!(parts.tls.is_none() && parts.http.is_none());
    assert_eq!(parts.websocket.unwrap().url, "ws://p");

    let default = ClientConfig::default();
    assert_eq!(default.http.unwrap().url, "http://localhost:3000");
    assert_eq!(default.websocket.unwrap().url, "ws://localhost:3000/ws");
}

#[test]
fn client_config_with_auth_sets_existing_parts_only() {
    let both = ClientConfig::both("http://h", "ws://h/ws").with_auth("my-token");
    assert_eq!(both.http.unwrap().authorization, Some("my-token".to_string()));
    assert_eq!(both.websocket.unwrap().authorization, Some("my-token".to_string()));
    let only = ClientConfig::http_only("http://h").with_auth("t");
    assert!(only.websocket.is_none());
    assert_eq!(only.http.unwrap().authorization, Some("t".to_string()));
}

#[test]
fn client_config_tls_and_websocket_parts() {
    let tls = TLSConfig::new(good_probe()).unwrap();
    let config = ClientConfig::http_only("https://h")
        .add_tls(tls)
        .add_websocket(WebSocketConfig::new("wss://h/ws"));
    assert_eq!(config.tls.as_ref().unwrap().certificate, "/etc/ssl/gateway.pem");
    assert_eq!(config.websocket.as_ref().unwrap().url, "wss://h/ws");

    let other = PathProbe { canonical: Some("/b.crt".to_string()), extension: Some("crt".to_string()), ..good_probe() };
    let replaced = config.with_certificate(other).unwrap();
    assert_eq!(replaced.tls.unwrap().certificate, "/b.crt");
    assert_eq!(replaced.http.unwrap().url, "https://h");

    let added = ClientConfig::http_only("https://h").with_certificate(good_probe()).unwrap();
    assert_eq!(added.tls.unwrap().certificate, "/etc/ssl/gateway.pem");

    let refused = ClientConfig::http_only("https://h")
        .with_certificate(PathProbe { exists: false, ..good_probe() });
    assert_eq!(
        refused.unwrap_err(),
        ClientError::ConfigError("Certificate filepath does not exist")
    );
}

#[test]
fn client_config_configure_parts() {
    let config = ClientConfig::both("http://h", "ws://h/ws")
        .configure_http(|http| http.with_base_timeout(Span::from_secs(30)).with_auth("token"))
        .configure_websocket(|ws| {
            ws.with_ping_interval(Span::from_secs(60)).with_max_reconnect_attempts(Some(5))
        });
    let http = config.http.unwrap();
    assert_eq!(http.base_timeout, Span::from_secs(30));
    assert_eq!(http.authorization, Some("token".to_string()));
    let ws = config.websocket.unwrap();
    assert_eq!(ws.ping_interval, Span::from_secs(60));
    assert_eq!(ws.max_reconnect_attempts, Some(5));

    let untouched = ClientConfig::http_only("http://h")
        .configure_websocket(|ws| ws.with_auto_reconnect(false));
    assert!(untouched.websocket.is_none());
}

#[test]
fn client_config_from_one_part() {
    let from_http = ClientConfig::from(HttpConfig::new("http://h"));
    assert!(from_http.tls.is_none());
    assert_eq!(from_http.http.unwrap().url, "http://h");
    assert_eq!(from_http.websocket.unwrap().url, "ws://localhost:3000/ws");
    let from_ws = ClientConfig::from(WebSocketConfig::new("ws://h"));
    assert!(from_ws.tls.is_none());
    assert_eq!(from_ws.websocket.unwrap().url, "ws://h");
    assert_eq!(from_ws.http.unwrap().url, "http://localhost:3000");
}

#[test]
fn span_arithmetic() {
    assert_eq!(Span::from_secs(2).as_nanos(), 2_000_000_000);
    assert_eq!(Span::from_millis(1500).as_nanos(), 1_500_000_000);
    assert_eq!(Span::from_nanos(7).as_nanos(), 7);
    assert_eq!(Span::from_secs(u64::MAX).as_nanos(), u64::MAX as u128 * 1_000_000_000);
    assert_eq!(Span::from_secs(5).saturating_since(Span::from_secs(2)), Span::from_secs(3));
    assert_eq!(Span::from_secs(2).saturating_since(Span::from_secs(5)), Span::from_secs(0));
}
