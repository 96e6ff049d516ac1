use sms_client::config::HttpConfig;
use sms_client::http::error::HttpError;
use sms_client::http::types::{
    HttpModemBatteryLevelResponse, HttpModemNetworkOperatorResponse,
    HttpModemNetworkStatusResponse, HttpModemSignalStrengthResponse, HttpOutgoingSmsMessage,
    HttpPaginationOptions, HttpSmsDeviceInfoData, HttpSmsDeviceInfoResponse, HttpSmsSendResponse,
    RequestFields,
};
use sms_client::http::{
    is_success_status, read_http_response, read_modem_response, HttpClient, HttpMethod, HttpReply,
    ModemEnvelope, RequestBody, ResponseEnvelope,
};
use sms_client::time::Span;
use sms_client::types::SmsStoredMessage;

fn client() -> HttpClient {
    HttpClient::new(HttpConfig::new("http://192.168.1.2:3000").with_auth("secret")).unwrap()
}

fn empty_fields() -> RequestFields {
    RequestFields { phone_number: None, message_id: None, limit: None, offset: None, reverse: None }
}

fn good_envelope() -> ResponseEnvelope {
    ResponseEnvelope { success: Some(true), error_message: None, has_response: true }
}

#[test]
fn pagination_builders() {
    let options = HttpPaginationOptions::default();
    assert_eq!(options, HttpPaginationOptions { limit: None, offset: None, reverse: None });
    let options = options.with_limit(5).with_offset(10).with_reverse(true);
    assert_eq!(
        options,
        HttpPaginationOptions { limit: Some(5), offset: Some(10), reverse: Some(true) }
    );
}

#[test]
fn pagination_adds_only_what_is_set() {
    let mut body = RequestFields { phone_number: Some("+44".to_string()), limit: Some(1), ..empty_fields() };
    HttpPaginationOptions::default().with_offset(20).add_to_body(&mut body);
    assert_eq!(
        body,
        RequestFields {
            phone_number: Some("+44".to_string()),
            message_id: None,
            limit: Some(1),
            offset: Some(20),
            reverse: None,
        }
    );
    HttpPaginationOptions::default().with_limit(9).with_reverse(false).add_to_body(&mut body);
    assert_eq!(body.limit, Some(9));
    assert_eq!(body.offset, Some(20));
    assert_eq!(body.reverse, Some(false));
}

#[test]
fn outgoing_message_builders() {
    let message = HttpOutgoingSmsMessage::simple_message("+441234567890", "hi");
    assert_eq!(
        message,
        HttpOutgoingSmsMessage {
            to: "+441234567890".to_string(),
            content: "hi".to_string(),
            validity_period: None,
            flash: None,
            timeout: None,
        }
    );
    let message = message.with_flash(true).with_validity_period(3).with_timeout(30);
    assert_eq!(message.flash, Some(true));
    assert_eq!(message.validity_period, Some(3));
    assert_eq!(message.timeout, Some(30));
    assert_eq!(message.to, "+441234567890");
}

#[test]
fn sent_message_as_stored_message() {
    let message = HttpOutgoingSmsMessage::simple_message("+44", "hi");
    let response = HttpSmsSendResponse { message_id: 42, reference_id: 7 };
    assert_eq!(
        SmsStoredMessage::from((message, response)),
        SmsStoredMessage {
            message_id: 42,
            phone_number: "+44".to_string(),
            message_content: "hi".to_string(),
            message_reference: Some(7),
            is_outgoing: true,
            status: "Unknown".to_string(),
            created_at: None,
            completed_at: None,
        }
    );
}

#[test]
fn device_info_is_unpacked() {
    let voltage = 4.1f32.to_bits();
    let raw = HttpSmsDeviceInfoResponse {
        phone_number: Some("+44".to_string()),
        service_provider: None,
        network_operator: Some((0, 2, "23415".to_string())),
        network_status: Some((1, 7)),
        battery: Some((1, 88, voltage)),
        signal: Some((21, 99)),
    };
    assert_eq!(
        HttpSmsDeviceInfoData::from(raw),
        HttpSmsDeviceInfoData {
            phone_number: Some("+44".to_string()),
            service_provider: None,
            network_operator: Some(HttpModemNetworkOperatorResponse {
                status: 0,
                format: 2,
                operator: "23415".to_string(),
            }),
            network_status: Some(HttpModemNetworkStatusResponse { registration: 1, technology: 7 }),
            battery: Some(HttpModemBatteryLevelResponse { status: 1, charge: 88, voltage }),
            signal: Some(HttpModemSignalStrengthResponse { rssi: 21, ber: 99 }),
        }
    );
    let empty = HttpSmsDeviceInfoResponse {
        phone_number: None,
        service_provider: Some("ASDA".to_string()),
        network_operator: None,
        network_status: None,
        battery: None,
        signal: None,
    };
    let data = HttpSmsDeviceInfoData::from(empty);
    assert_eq!(data.service_provider, Some("ASDA".to_string()));
    assert!(data.network_operator.is_none() && data.battery.is_none() && data.signal.is_none());
}

#[test]
fn http_client_takes_the_config() {
    let client = client();
    assert_eq!(client.base_url, "http://192.168.1.2:3000/");
    assert_eq!(client.authorization, Some("secret".to_string()));
    assert_eq!(client.modem_timeout, Some(Span::from_secs(20)));
    assert_eq!(client.base_timeout, Span::from_secs(5));
}

#[test]
fn http_client_refuses_a_bad_address() {
    match HttpClient::new(HttpConfig::new("192.168.1.2:3000/no-scheme")) {
        Err(HttpError::UrlParseError(_)) => {}
        other => panic!("expected a URL error, got {:?}", other),
    }
    assert_eq!(
        HttpClient::new(HttpConfig::new("")),
        Err(HttpError::UrlParseError("relative URL without a base".to_string()))
    );
}

#[test]
fn setup_request_picks_timeout_and_token() {
    let client = client();
    assert_eq!(client.setup_request(true), (Some(Span::from_secs(20)), Some("secret".to_string())));
    assert_eq!(client.setup_request(false), (None, Some("secret".to_string())));
    let bare = HttpClient::new(HttpConfig::new("http://h").with_modem_timeout(None)).unwrap();
    assert_eq!(bare.setup_request(true), (None, None));
}

#[test]
fn get_messages_request() {
    let request = client()
        .get_messages("+441234567890", Some(HttpPaginationOptions::default().with_limit(5)))
        .unwrap();
    assert_eq!(request.method, HttpMethod::Post);
    assert_eq!(request.url, "http://192.168.1.2:3000/db/sms");
    assert_eq!(request.timeout, None);
    assert_eq!(request.authorization, Some("secret".to_string()));
    assert_eq!(
        request.body,
        RequestBody::Fields(RequestFields {
            phone_number: Some("+441234567890".to_string()),
            limit: Some(5),
            ..empty_fields()
        })
    );
}

#[test]
fn get_latest_numbers_request() {
    let without = client().get_latest_numbers(None).unwrap();
    assert_eq!(without.method, HttpMethod::Post);
    assert_eq!(without.url, "http://192.168.1.2:3000/db/latest-numbers");
    assert_eq!(without.body, RequestBody::Empty);
    let options = HttpPaginationOptions::default().with_offset(3);
    let with = client().get_latest_numbers(Some(options)).unwrap();
    assert_eq!(with.body, RequestBody::Pagination(options));
}

#[test]
fn get_delivery_reports_request() {
    let request = client()
        .get_delivery_reports(42, Some(HttpPaginationOptions::default().with_reverse(true)))
        .unwrap();
    assert_eq!(request.method, HttpMethod::Post);
    assert_eq!(request.url, "http://192.168.1.2:3000/db/delivery-reports");
    assert_eq!(
        request.body,
        RequestBody::Fields(RequestFields {
            message_id: Some(42),
            reverse: Some(true),
            ..empty_fields()
        })
    );
}

#[test]
fn send_sms_request_goes_through_the_modem() {
    let message = HttpOutgoingSmsMessage::simple_message("+44", "hi");
    let request = client().send_sms(message.clone()).unwrap();
    assert_eq!(request.method, HttpMethod::Post);
    assert_eq!(request.url, "http://192.168.1.2:3000/sms/send");
    assert_eq!(request.timeout, Some(Span::from_secs(20)));
    assert_eq!(request.body, RequestBody::Message(message));
}

#[test]
fn modem_requests() {
    let client = client();
    let cases = [
        (client.get_network_status().unwrap(), "modem-status", "NetworkStatus"),
        (client.get_signal_strength().unwrap(), "signal-strength", "SignalStrength"),
        (client.get_network_operator().unwrap(), "network-operator", "NetworkOperator"),
        (client.get_service_provider().unwrap(), "service-provider", "ServiceProvider"),
        (client.get_battery_level().unwrap(), "battery-level", "BatteryLevel"),
    ];
    for (modem, route, expected) in cases {
        assert_eq!(modem.expected, expected);
        assert_eq!(modem.request.method, HttpMethod::Get);
        assert_eq!(modem.request.url, format!("http://192.168.1.2:3000/sms/{}", route));
        assert_eq!(modem.request.timeout, Some(Span::from_secs(20)));
        assert_eq!(modem.request.authorization, Some("secret".to_string()));
        assert_eq!(modem.request.body, RequestBody::Empty);
    }
}

#[test]
fn system_requests() {
    let number = client().get_phone_number().unwrap();
    assert_eq!(number.method, HttpMethod::Get);
    assert_eq!(number.url, "http://192.168.1.2:3000/sys/phone-number");
    assert_eq!(number.timeout, None);
    let version = client().get_version().unwrap();
    assert_eq!(version.url, "http://192.168.1.2:3000/sys/version");
    assert_eq!(version.body, RequestBody::Empty);
}

#[test]
fn paths_replace_the_path_of_the_base() {
    let client = HttpClient::new(HttpConfig::new("http://h:1/api/v1")).unwrap();
    assert_eq!(client.get_version().unwrap().url, "http://h:1/sys/version");
}

#[test]
fn success_statuses() {
    for status in [200u16, 201, 204, 299] {
        assert!(is_success_status(status));
    }
    for status in [0u16, 100, 199, 300, 301, 400, 401, 404, 500, 65535] {
        assert!(!is_success_status(status));
    }
}

#[test]
fn failed_status_is_reported_with_the_body() {
    let reply = HttpReply { status: 404, text: Some("nope".to_string()), envelope: Ok(good_envelope()) };
    assert_eq!(
        read_http_response(reply),
        Err(HttpError::HttpStatus { status: 404, message: "nope".to_string() })
    );
    let reply = HttpReply { status: 500, text: None, envelope: Err("x".to_string()) };
    assert_eq!(
        read_http_response(reply),
        Err(HttpError::HttpStatus { status: 500, message: "Unknown error!".to_string() })
    );
}

#[test]
fn undecodable_body_is_a_request_error() {
    let reply = HttpReply { status: 200, text: None, envelope: Err("expected value".to_string()) };
    assert_eq!(read_http_response(reply), Err(HttpError::RequestError("expected value".to_string())));
}

#[test]
fn unsuccessful_envelope_is_an_api_error() {
    for success in [None, Some(false)] {
        let envelope = ResponseEnvelope {
            success,
            error_message: Some("Modem offline".to_string()),
            has_response: true,
        };
        let reply = HttpReply { status: 200, text: None, envelope: Ok(envelope) };
        assert_eq!(
            read_http_response(reply),
            Err(HttpError::ApiError { message: "Modem offline".to_string() })
        );
    }
    let envelope = ResponseEnvelope { success: Some(false), error_message: None, has_response: false };
    let reply = HttpReply { status: 200, text: None, envelope: Ok(envelope) };
    assert_eq!(
        read_http_response(reply),
        Err(HttpError::ApiError { message: "Unknown API error!".to_string() })
    );
}

#[test]
fn missing_response_field() {
    let envelope = ResponseEnvelope { has_response: false, ..good_envelope() };
    let reply = HttpReply { status: 200, text: None, envelope: Ok(envelope) };
    assert_eq!(read_http_response(reply), Err(HttpError::MissingResponseField));
}

#[test]
fn good_reply_is_accepted() {
    let reply = HttpReply { status: 200, text: Some("{}".to_string()), envelope: Ok(good_envelope()) };
    assert_eq!(read_http_response(reply), Ok(()));
}

#[test]
fn modem_answer_checks() {
    let envelope = |t: Option<&str>, has_data: bool| ModemEnvelope {
        response_type: t.map(|s| s.to_string()),
        has_data,
    };
    assert_eq!(read_modem_response("BatteryLevel", envelope(Some("BatteryLevel"), true)), Ok(()));
    assert_eq!(
        read_modem_response("BatteryLevel", envelope(None, true)),
        Err(HttpError::MissingTypeField)
    );
    assert_eq!(
        read_modem_response("BatteryLevel", envelope(Some("SignalStrength"), false)),
        Err(HttpError::ResponseTypeMismatch {
            expected: "BatteryLevel".to_string(),
            actual: "SignalStrength".to_string(),
        })
    );
    assert_eq!(
        read_modem_response("BatteryLevel", envelope(Some("BatteryLevel"), false)),
        Err(HttpError::MissingDataField)
    );
}

#[test]
fn request_from_a_resolved_address() {
    let client = client();
    let request = client
        .with_address(HttpMethod::Get, Ok("http://h/x".to_string()), true, RequestBody::Empty)
        .unwrap();
    assert_eq!(request.url, "http://h/x");
    assert_eq!(request.method, HttpMethod::Get);
    assert_eq!(request.timeout, Some(Span::from_secs(20)));
    assert_eq!(request.authorization, Some("secret".to_string()));
    assert_eq!(
        client.with_address(HttpMethod::Get, Err("empty host".to_string()), false, RequestBody::Empty),
        Err(HttpError::UrlParseError("empty host".to_string()))
    );
}

#[test]
fn client_from_a_parsed_base() {
    let config = HttpConfig::new("ignored").with_auth("t");
    let client = HttpClient::with_base(config, Ok("http://h/".to_string())).unwrap();
    assert_eq!(client.base_url, "http://h/");
    assert_eq!(client.authorization, Some("t".to_string()));
    assert_eq!(
        HttpClient::with_base(HttpConfig::new("x"), Err("bad".to_string())),
        Err(HttpError::UrlParseError("bad".to_string()))
    );
}
