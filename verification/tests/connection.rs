use sms_client::config::WebSocketConfig;
use sms_client::ws::connection::{join_events, ConnectionParams, HandshakeFailure};
use sms_client::ws::error::{UrlError, WebsocketError};
use sms_client::ws::tls::CertificateFile;

#[test]
fn plain_config_gives_the_address_as_parsed() {
    let config = WebSocketConfig::new("ws://192.168.1.2:3000/ws");
    assert!(ConnectionParams::fits(&config));
    let params = ConnectionParams::from_config(&config, None).unwrap();
    assert_eq!(params.url, "ws://192.168.1.2:3000/ws");
    assert_eq!(params.authorization, None);
    assert_eq!(params.trust_anchor, None);
}

#[test]
fn address_is_written_back_in_normal_form() {
    let config = WebSocketConfig::new("WS://LOCALHOST:3000");
    let params = ConnectionParams::from_config(&config, None).unwrap();
    assert_eq!(params.url, "ws://localhost:3000/");
}

#[test]
fn event_filter_goes_into_the_query_string() {
    let config = WebSocketConfig::new("ws://192.168.1.2:3000/ws")
        .with_filtered_events(Some(vec!["incoming".to_string(), "outgoing".to_string()]));
    let params = ConnectionParams::from_config(&config, None).unwrap();
    assert_eq!(params.url, "ws://192.168.1.2:3000/ws?events=incoming%2Coutgoing");
}

#[test]
fn event_filter_is_appended_to_an_existing_query() {
    let config = WebSocketConfig::new("ws://192.168.1.2:3000/ws?client=a")
        .with_filtered_events(Some(vec!["delivery".to_string()]));
    let params = ConnectionParams::from_config(&config, None).unwrap();
    assert_eq!(params.url, "ws://192.168.1.2:3000/ws?client=a&events=delivery");
}

#[test]
fn empty_event_filter_still_adds_the_parameter() {
    let config =
        WebSocketConfig::new("ws://192.168.1.2:3000/ws").with_filtered_events(Some(Vec::new()));
    let params = ConnectionParams::from_config(&config, None).unwrap();
    assert_eq!(params.url, "ws://192.168.1.2:3000/ws?events=");
}

#[test]
fn join_events_puts_commas_between_items() {
    assert_eq!(join_events(&Vec::new()), "");
    assert_eq!(join_events(&vec!["incoming".to_string()]), "incoming");
    assert_eq!(
        join_events(&vec!["incoming".to_string(), "outgoing".to_string(), "delivery".to_string()]),
        "incoming,outgoing,delivery"
    );
    assert_eq!(join_events(&vec!["".to_string(), "".to_string()]), ",");
}

#[test]
fn token_is_kept_as_header_value() {
    let config = WebSocketConfig::new("ws://192.168.1.2:3000/ws").with_auth("token123");
    let params = ConnectionParams::from_config(&config, None).unwrap();
    assert_eq!(params.authorization, Some("token123".to_string()));
}

#[test]
fn token_with_tab_or_beyond_ascii_is_accepted() {
    for token in ["a\tb", "caf\u{e9}", " ", "~"] {
        let config = WebSocketConfig::new("ws://192.168.1.2:3000/ws").with_auth(token);
        let params = ConnectionParams::from_config(&config, None).unwrap();
        assert_eq!(params.authorization, Some(token.to_string()));
    }
}

#[test]
fn token_with_control_character_is_refused() {
    for token in ["bad\ntoken", "bad\rtoken", "bad\u{7f}token", "\u{0}", "bad\u{1f}"] {
        let config = WebSocketConfig::new("ws://192.168.1.2:3000/ws").with_auth(token);
        assert_eq!(
            ConnectionParams::from_config(&config, None),
            Err(WebsocketError::InvalidHeader)
        );
    }
}

#[test]
fn unparsable_address_is_a_url_error() {
    let config = WebSocketConfig::new("not a url");
    match ConnectionParams::from_config(&config, None) {
        Err(WebsocketError::UrlError(UrlError::Url(message))) => {
            assert_eq!(message, "relative URL without a base")
        }
        other => panic!("expected a URL error, got {:?}", other),
    }
}

#[test]
fn address_error_comes_before_header_error() {
    let config = WebSocketConfig::new("://").with_auth("bad\ntoken");
    assert!(matches!(
        ConnectionParams::from_config(&config, None),
        Err(WebsocketError::UrlError(UrlError::Url(_)))
    ));
}

#[test]
fn header_error_comes_before_tls_error() {
    let config = WebSocketConfig::new("ws://localhost/ws").with_auth("bad\ntoken");
    let file = CertificateFile { contents: Err("gone".to_string()), extension: None };
    assert_eq!(
        ConnectionParams::from_config(&config, Some(file)),
        Err(WebsocketError::InvalidHeader)
    );
}

#[test]
fn unreadable_certificate_is_a_tls_error() {
    let config = WebSocketConfig::new("ws://localhost/ws");
    let file = CertificateFile {
        contents: Err("permission denied".to_string()),
        extension: Some("pem".to_string()),
    };
    assert_eq!(
        ConnectionParams::from_config(&config, Some(file)),
        Err(WebsocketError::TLSError(
            "Failed to read certificate file: permission denied".to_string()
        ))
    );
}

#[test]
fn certificate_becomes_the_trust_anchor() {
    let config = WebSocketConfig::new("wss://localhost/ws");
    let file =
        CertificateFile { contents: Ok(vec![0x30, 0x82, 0x01]), extension: Some("der".to_string()) };
    let params = ConnectionParams::from_config(&config, Some(file)).unwrap();
    assert_eq!(params.trust_anchor, Some(vec![0x30, 0x82, 0x01]));
}

#[test]
fn assemble_checks_address_then_token_then_anchor() {
    let bad_anchor = || Err(WebsocketError::TLSError("x".to_string()));
    assert_eq!(
        ConnectionParams::assemble(Err("bad".to_string()), Some("t".to_string()), false, bad_anchor()),
        Err(WebsocketError::UrlError(UrlError::Url("bad".to_string())))
    );
    assert_eq!(
        ConnectionParams::assemble(Ok("ws://a/".to_string()), Some("t".to_string()), false, bad_anchor()),
        Err(WebsocketError::InvalidHeader)
    );
    assert_eq!(
        ConnectionParams::assemble(Ok("ws://a/".to_string()), Some("t".to_string()), true, bad_anchor()),
        Err(WebsocketError::TLSError("x".to_string()))
    );
    assert_eq!(
        ConnectionParams::assemble(Ok("ws://a/".to_string()), None, false, Ok(Some(vec![1]))),
        Ok(ConnectionParams {
            url: "ws://a/".to_string(),
            authorization: None,
            trust_anchor: Some(vec![1]),
        })
    );
}

#[test]
fn status_401_is_unauthorized() {
    let failure = HandshakeFailure { http_status: Some(401), message: "HTTP error: 401".to_string() };
    assert_eq!(ConnectionParams::handle_connection_error(failure), WebsocketError::Unauthorized);
}

#[test]
fn other_failures_are_connection_errors() {
    for status in [None, Some(400), Some(403), Some(500), Some(101)] {
        let failure = HandshakeFailure { http_status: status, message: "boom".to_string() };
        assert_eq!(
            ConnectionParams::handle_connection_error(failure),
            WebsocketError::ConnectionError("boom".to_string())
        );
    }
}

#[test]
fn filter_that_does_not_fit_is_a_url_error() {
    let config = WebSocketConfig::new("ws://192.168.1.2:3000/ws")
        .with_filtered_events(Some(vec!["x".repeat(0x0400_0000)]));
    assert!(!ConnectionParams::fits(&config));
    assert_eq!(
        ConnectionParams::from_config(&config, None),
        Err(WebsocketError::UrlError(UrlError::Url(
            "address and event filter are too long".to_string()
        )))
    );
}

#[test]
fn address_without_filter_always_fits() {
    let config = WebSocketConfig::new("ws://192.168.1.2:3000/ws");
    assert!(ConnectionParams::fits(&config));
    let filtered = config.with_filtered_events(Some(vec!["incoming".to_string()]));
    assert!(ConnectionParams::fits(&filtered));
}
