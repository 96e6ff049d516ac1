use sms_client::error::ClientError;
use sms_client::http::error::HttpError;
use sms_client::text::{concatenated, decimal_string, is_blank, str_equals};
use sms_client::ws::error::{UrlError, WebsocketError};

#[test]
fn status_texts() {
    let cases = [
        (200u16, "OK"),
        (400, "Bad Request"),
        (401, "Unauthorized"),
        (403, "Forbidden"),
        (404, "Not Found"),
        (405, "Method Not Allowed"),
        (408, "Not Acceptable"),
        (429, "Too Many Requests"),
        (500, "Internal Server Error"),
        (503, "Service Unavailable"),
        (504, "Gateway Timeout"),
        (418, "Unknown"),
        (0, "Unknown"),
        (201, "Unknown"),
    ];
    for (status, text) in cases {
        assert_eq!(HttpError::status_text(status), text);
    }
}

#[test]
fn http_error_with_blank_body_names_the_status() {
    assert_eq!(HttpError::format_http_error(404, ""), "HTTP 404 Not Found");
    assert_eq!(HttpError::format_http_error(500, "  \n\t "), "HTTP 500 Internal Server Error");
    assert_eq!(HttpError::format_http_error(418, "\u{a0}\u{3000}"), "HTTP 418 Unknown");
}

#[test]
fn http_error_with_body_shows_the_body() {
    assert_eq!(HttpError::format_http_error(400, "bad number"), "HTTP 400: bad number");
    assert_eq!(HttpError::format_http_error(65535, " x "), "HTTP 65535:  x ");
}

#[test]
fn http_error_messages() {
    assert_eq!(
        HttpError::RequestError("timed out".to_string()).to_string(),
        "Network request failed: timed out"
    );
    assert_eq!(HttpError::UrlParseError("empty host".to_string()).to_string(), "Invalid URL: empty host");
    assert_eq!(HttpError::JsonError("eof".to_string()).to_string(), "JSON parsing failed: eof");
    assert_eq!(
        HttpError::HttpStatus { status: 401, message: String::new() }.to_string(),
        "HTTP 401 Unauthorized"
    );
    assert_eq!(
        HttpError::ApiError { message: "offline".to_string() }.to_string(),
        "API responded with success=false: offline"
    );
    assert_eq!(
        HttpError::MissingResponseField.to_string(),
        "Missing 'response' field in API response"
    );
    assert_eq!(HttpError::MissingTypeField.to_string(), "Missing 'type' field in API response");
    assert_eq!(HttpError::MissingDataField.to_string(), "Missing 'data' field in API response");
    assert_eq!(
        HttpError::ResponseTypeMismatch { expected: "A".to_string(), actual: "B".to_string() }
            .to_string(),
        "Type mismatch: expected 'A', got 'B'"
    );
}

#[test]
fn websocket_error_messages() {
    assert_eq!(
        WebsocketError::InvalidRequest.to_string(),
        "Invalid WebSocket request URL configured"
    );
    assert_eq!(
        WebsocketError::ConnectionError("refused".to_string()).to_string(),
        "WebSocket connection failed: refused"
    );
    assert_eq!(
        WebsocketError::UrlError(UrlError::Url("empty host".to_string())).to_string(),
        "Invalid WebSocket URL: empty host"
    );
    assert_eq!(
        WebsocketError::UrlError(UrlError::Http("invalid uri".to_string())).to_string(),
        "Invalid WebSocket URL: invalid uri"
    );
    assert_eq!(WebsocketError::HttpError("x".to_string()).to_string(), "HTTP error: x");
    assert_eq!(
        WebsocketError::InvalidHeader.to_string(),
        "Invalid WebSocket header value: failed to parse header value"
    );
    assert_eq!(WebsocketError::JsonError("eof".to_string()).to_string(), "JSON error: eof");
    assert_eq!(
        WebsocketError::Unauthorized.to_string(),
        "The WebSocket connection was unauthorized"
    );
    assert_eq!(WebsocketError::AlreadyConnected.to_string(), "WebSocket is already connected");
    assert_eq!(WebsocketError::NotConnected.to_string(), "WebSocket is not connected");
    assert_eq!(WebsocketError::SendError.to_string(), "Failed to send message to WebSocket");
    assert_eq!(WebsocketError::ChannelError.to_string(), "Internal channel communication error");
    assert_eq!(WebsocketError::Timeout.to_string(), "Operation timed out");
    assert_eq!(WebsocketError::TLSError("bad".to_string()).to_string(), "TLS error: bad");
}

#[test]
fn client_error_messages_and_conversions() {
    assert_eq!(
        ClientError::ConfigError("HttpClient").to_string(),
        "Missing/invalid required configuration: HttpClient"
    );
    assert_eq!(ClientError::NoWebsocketClient.to_string(), "No WebSocket client initialized");
    assert_eq!(
        ClientError::from(WebsocketError::Unauthorized),
        ClientError::WebsocketError(WebsocketError::Unauthorized)
    );
    assert_eq!(
        ClientError::from(HttpError::MissingDataField),
        ClientError::HttpError(HttpError::MissingDataField)
    );
    assert_eq!(
        ClientError::from(WebsocketError::Timeout).to_string(),
        "Operation timed out"
    );
    assert_eq!(
        ClientError::from(HttpError::MissingTypeField).to_string(),
        "Missing 'type' field in API response"
    );
}

#[test]
fn text_helpers() {
    assert!(str_equals("", ""));
    assert!(str_equals("pem", "pem"));
    assert!(!str_equals("pem", "pe"));
    assert!(!str_equals("pem", "peM"));
    assert!(str_equals("caf\u{e9}", "caf\u{e9}"));
    assert_eq!(concatenated("ab", "cd"), "abcd");
    assert_eq!(concatenated("", ""), "");
    assert!(is_blank(""));
    assert!(is_blank(" \t\r\n\u{b}\u{c}\u{85}\u{a0}\u{1680}\u{2000}\u{200a}\u{2028}\u{2029}\u{202f}\u{205f}\u{3000}"));
    assert!(!is_blank(" a "));
    assert!(!is_blank("\u{200b}"));
    assert!(!is_blank("\u{1c}_"));
    for n in [0u16, 7, 10, 99, 100, 404, 9999, 10000, 65535] {
        assert_eq!(decimal_string(n), n.to_string());
    }
}

#[test]
fn blank_agrees_with_trimming() {
    for code in 0..0x3100u32 {
        if let Some(c) = char::from_u32(code) {
            let text = c.to_string();
            assert_eq!(is_blank(&text), text.trim().is_empty(), "U+{:04X}", code);
        }
    }
}
