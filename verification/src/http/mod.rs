//! The HTTP interface of the gateway.
//!
//! The client here decides what is sent and how an answer is read. It builds
//! each request as a plain value, which the caller sends, and it checks the
//! envelope of each answer, from which the caller then takes the payload.

pub mod error;
pub mod paginator;
pub mod types;

use vstd::prelude::*;
use crate::address::{join_url, parse_url, url_joined, url_serialization};
use crate::config::HttpConfig;
use crate::http::error::{HttpError, HttpResult};
use crate::http::types::{HttpOutgoingSmsMessage, HttpPaginationOptions, RequestFields};
use crate::text::{concatenated, str_equals};
use crate::time::Span;

verus! {

/// The method of a request.
#[derive(Debug, Clone, Copy, PartialEq, Eq, Structural)]
pub enum HttpMethod {
    /// GET
    Get,
    /// POST
    Post,
}

/// The body of a request, sent as JSON.
#[derive(Debug, Clone, PartialEq)]
pub enum RequestBody {
    /// No body.
    Empty,
    /// An object of the fields that are set.
    Fields(RequestFields),
    /// The paging options.
    Pagination(HttpPaginationOptions),
    /// A message to send.
    Message(HttpOutgoingSmsMessage),
}

/// A request to the gateway.
#[derive(Debug, Clone, PartialEq)]
pub struct HttpRequest {
    /// The method.
    pub method: HttpMethod,
    /// The address.
    pub url: String,
    /// The timeout of this request, where it has one of its own.
    pub timeout: Option<Span>,
    /// The value of the authorization header, where a token is configured.
    pub authorization: Option<String>,
    /// The body.
    pub body: RequestBody,
}

/// A request to the modem, with the type that its answer must name.
#[derive(Debug, Clone, PartialEq)]
pub struct ModemRequest {
    /// The request.
    pub request: HttpRequest,
    /// The value that the `type` field of the answer must have.
    pub expected: &'static str,
}

/// The envelope of an answer: what its JSON object holds beside the payload.
#[derive(Debug, Clone, PartialEq)]
pub struct ResponseEnvelope {
    /// The `success` field, where it is there and a boolean.
    pub success: Option<bool>,
    /// The `error_message` field, where it is there and a string.
    pub error_message: Option<String>,
    /// Whether there is a `response` field.
    pub has_response: bool,
}

/// An answer as far as it was read.
#[derive(Debug)]
pub struct HttpReply {
    /// The status of the answer.
    pub status: u16,
    /// The body as text, where it could be read; looked at for a failed status only.
    pub text: Option<String>,
    /// The envelope of the body, or why the body is not a JSON object.
    pub envelope: Result<ResponseEnvelope, String>,
}

/// The payload of a modem answer, as far as its envelope goes.
#[derive(Debug, Clone, PartialEq)]
pub struct ModemEnvelope {
    /// The `type` field, where it is there and a string.
    pub response_type: Option<String>,
    /// Whether there is a `data` field.
    pub has_data: bool,
}

/// The client of the HTTP interface.
#[derive(Debug, Clone, PartialEq)]
pub struct HttpClient {
    /// The base address, as the URL parser wrote it back.
    pub base_url: String,
    /// The token sent in the authorization header.
    pub authorization: Option<String>,
    /// The timeout of requests that go through the modem.
    pub modem_timeout: Option<Span>,
    /// The timeout of every other request.
    pub base_timeout: Span,
}

/// Whether a status is a success: 200 to 299.
pub open spec fn spec_is_success_status(status: u16) -> bool {
    200 <= status < 300
}

/// Whether a status is a success.
pub fn is_success_status(status: u16) -> (r: bool)
    ensures
        r == spec_is_success_status(status),
{
    200 <= status && status < 300
}

/// Whether `r` is what reading an answer comes to.
///
/// A failed status is an `HttpStatus` error with the body as its message, or
/// `Unknown error!` where the body could not be read. With a good status, a
/// body that is not JSON is a `RequestError`; a `success` field that is
/// missing, not a boolean or false is an `ApiError` with the `error_message`
/// field, or `Unknown API error!` without one; a missing `response` field is
/// `MissingResponseField`; and everything else is in order.
pub open spec fn is_read_result(r: HttpResult<()>, reply: HttpReply) -> bool {
    if !spec_is_success_status(reply.status) {
        &&& r matches Err(HttpError::HttpStatus { status, message })
        &&& status == reply.status
        &&& message@ == match reply.text {
            Some(text) => text@,
            None => "Unknown error!"@,
        }
    } else {
        match reply.envelope {
            Err(reason) => r == Err::<(), HttpError>(HttpError::RequestError(reason)),
            Ok(envelope) => if envelope.success != Some(true) {
                &&& r matches Err(HttpError::ApiError { message })
                &&& message@ == match envelope.error_message {
                    Some(text) => text@,
                    None => "Unknown API error!"@,
                }
            } else if !envelope.has_response {
                r == Err::<(), HttpError>(HttpError::MissingResponseField)
            } else {
                r is Ok
            },
        }
    }
}

/// Reads an answer: checks the status, then that the gateway reports
/// success, then that there is a payload.
pub fn read_http_response(reply: HttpReply) -> (r: HttpResult<()>)
    ensures
        is_read_result(r, reply),
{
    if !is_success_status(reply.status) {
        let message = match reply.text {
            Some(text) => text,
            None => "Unknown error!".to_owned(),
        };
        return Err(HttpError::HttpStatus { status: reply.status, message });
    }
    let envelope = match reply.envelope {
        Ok(envelope) => envelope,
        Err(reason) => {
            return Err(HttpError::RequestError(reason));
        },
    };
    let success = match envelope.success {
        Some(flag) => flag,
        None => false,
    };
    if !success {
        let message = match envelope.error_message {
            Some(text) => text,
            None => "Unknown API error!".to_owned(),
        };
        return Err(HttpError::ApiError { message });
    }
    if !envelope.has_response {
        return Err(HttpError::MissingResponseField);
    }
    Ok(())
}

/// Whether `r` is what reading the payload of a modem answer comes to: a
/// missing `type` field is `MissingTypeField`, another type than the expected
/// one is `ResponseTypeMismatch` with both, a missing `data` field is
/// `MissingDataField`, and everything else is in order.
pub open spec fn is_modem_result(
    r: HttpResult<()>,
    expected: Seq<char>,
    envelope: ModemEnvelope,
) -> bool {
    match envelope.response_type {
        None => r == Err::<(), HttpError>(HttpError::MissingTypeField),
        Some(actual) => if actual@ != expected {
            &&& r matches Err(HttpError::ResponseTypeMismatch { expected: e, actual: a })
            &&& e@ == expected
            &&& a@ == actual@
        } else if !envelope.has_data {
            r == Err::<(), HttpError>(HttpError::MissingDataField)
        } else {
            r is Ok
        },
    }
}

/// Reads the payload of a modem answer: checks that it is of the expected
/// type, then that it holds data.
pub fn read_modem_response(expected: &str, envelope: ModemEnvelope) -> (r: HttpResult<()>)
    ensures
        is_modem_result(r, expected@, envelope),
{
    let actual = match envelope.response_type {
        Some(actual) => actual,
        None => {
            return Err(HttpError::MissingTypeField);
        },
    };
    if !str_equals(actual.as_str(), expected) {
        return Err(HttpError::ResponseTypeMismatch { expected: expected.to_owned(), actual });
    }
    if !envelope.has_data {
        return Err(HttpError::MissingDataField);
    }
    Ok(())
}

impl HttpClient {
    /// The timeout of a request of its own: the modem timeout for a request
    /// that goes through the modem, and none for any other.
    pub open spec fn spec_timeout(&self, is_modem: bool) -> Option<Span> {
        if is_modem {
            self.modem_timeout
        } else {
            None
        }
    }

    /// Whether `r` is the request with this method, path and body: its
    /// address is the path resolved against the base address, and it carries
    /// the client's token and the timeout that goes with its kind. Where the
    /// path does not resolve, `r` is a `UrlParseError`.
    pub open spec fn is_request(
        &self,
        r: HttpResult<HttpRequest>,
        method: HttpMethod,
        path: Seq<char>,
        is_modem: bool,
        body: RequestBody,
    ) -> bool {
        match url_joined(self.base_url@, path) {
            None => r matches Err(HttpError::UrlParseError(_)),
            Some(address) => {
                &&& r matches Ok(request)
                &&& request.method == method
                &&& request.url@ == address
                &&& request.timeout == self.spec_timeout(is_modem)
                &&& request.authorization == self.authorization
                &&& request.body == body
            },
        }
    }

    /// Whether `r` is the modem request for this route and answer type.
    pub open spec fn is_modem_request(
        &self,
        r: HttpResult<ModemRequest>,
        route: Seq<char>,
        expected: Seq<char>,
    ) -> bool {
        match url_joined(self.base_url@, "/sms/"@ + route) {
            None => r matches Err(HttpError::UrlParseError(_)),
            Some(address) => {
                &&& r matches Ok(modem)
                &&& modem.expected@ == expected
                &&& modem.request.method == HttpMethod::Get
                &&& modem.request.url@ == address
                &&& modem.request.timeout == self.modem_timeout
                &&& modem.request.authorization == self.authorization
                &&& modem.request.body == RequestBody::Empty
            },
        }
    }

    /// A client for a configuration, given its base address as the URL parser
    /// wrote it back, or the parser's error.
    pub fn with_base(config: HttpConfig, base: Result<String, String>) -> (r: HttpResult<Self>)
        ensures
            r == match base {
                Ok(base_url) => Ok::<Self, HttpError>(
                    HttpClient {
                        base_url,
                        authorization: config.authorization,
                        modem_timeout: config.modem_timeout,
                        base_timeout: config.base_timeout,
                    },
                ),
                Err(reason) => Err(HttpError::UrlParseError(reason)),
            },
    {
        match base {
            Ok(base_url) => Ok(
                HttpClient {
                    base_url,
                    authorization: config.authorization,
                    modem_timeout: config.modem_timeout,
                    base_timeout: config.base_timeout,
                },
            ),
            Err(reason) => Err(HttpError::UrlParseError(reason)),
        }
    }

    /// A client for the configured base address, which must parse as a URL.
    pub fn new(config: HttpConfig) -> (r: HttpResult<Self>)
        ensures
            match url_serialization(config.url@) {
                None => r matches Err(HttpError::UrlParseError(_)),
                Some(address) => {
                    &&& r matches Ok(client)
                    &&& client.base_url@ == address
                    &&& client.authorization == config.authorization
                    &&& client.modem_timeout == config.modem_timeout
                    &&& client.base_timeout == config.base_timeout
                },
            },
    {
        let base = parse_url(config.url.as_str());
        Self::with_base(config, base)
    }

    /// The timeout and the authorization header of a request.
    pub fn setup_request(&self, is_modem: bool) -> (setup: (Option<Span>, Option<String>))
        ensures
            setup.0 == self.spec_timeout(is_modem),
            setup.1 == self.authorization,
    {
        let timeout = if is_modem {
            self.modem_timeout
        } else {
            None
        };
        (timeout, self.authorization.clone())
    }

    /// The request with this method and body to an address, given the address
    /// as the URL parser resolved it, or the parser's error.
    pub fn with_address(
        &self,
        method: HttpMethod,
        address: Result<String, String>,
        is_modem: bool,
        body: RequestBody,
    ) -> (r: HttpResult<HttpRequest>)
        ensures
            r == match address {
                Ok(url) => Ok::<HttpRequest, HttpError>(
                    HttpRequest {
                        method,
                        url,
                        timeout: self.spec_timeout(is_modem),
                        authorization: self.authorization,
                        body,
                    },
                ),
                Err(reason) => Err(HttpError::UrlParseError(reason)),
            },
    {
        let url = match address {
            Ok(url) => url,
            Err(reason) => {
                return Err(HttpError::UrlParseError(reason));
            },
        };
        let (timeout, authorization) = self.setup_request(is_modem);
        Ok(HttpRequest { method, url, timeout, authorization, body })
    }

    /// The request with this method, path and body.
    fn request(&self, method: HttpMethod, path: &str, is_modem: bool, body: RequestBody) -> (r:
        HttpResult<HttpRequest>)
        ensures
            self.is_request(r, method, path@, is_modem, body),
    {
        let address = join_url(self.base_url.as_str(), path);
        self.with_address(method, address, is_modem, body)
    }

    /// The body that asks for the messages of a phone number.
    pub open spec fn is_messages_body(
        body: RequestBody,
        phone_number: Seq<char>,
        pagination: Option<HttpPaginationOptions>,
    ) -> bool {
        &&& body matches RequestBody::Fields(fields)
        &&& fields.phone_number matches Some(number)
        &&& number@ == phone_number
        &&& fields.message_id is None
        &&& match pagination {
            Some(options) => fields.limit == options.limit && fields.offset == options.offset
                && fields.reverse == options.reverse,
            None => fields.limit is None && fields.offset is None && fields.reverse is None,
        }
    }

    /// The request for the messages sent to and from a phone number: a POST
    /// to `/db/sms` with the number and the paging options.
    pub fn get_messages(&self, phone_number: &str, pagination: Option<HttpPaginationOptions>) -> (r:
        HttpResult<HttpRequest>)
        ensures
            url_joined(self.base_url@, "/db/sms"@) is None ==> r matches Err(
                HttpError::UrlParseError(_),
            ),
            url_joined(self.base_url@, "/db/sms"@) matches Some(address) ==> {
                &&& r matches Ok(request)
                &&& request.method == HttpMethod::Post
                &&& request.url@ == address
                &&& request.timeout is None
                &&& request.authorization == self.authorization
                &&& Self::is_messages_body(request.body, phone_number@, pagination)
            },
    {
        let mut fields = RequestFields {
            phone_number: Some(phone_number.to_owned()),
            message_id: None,
            limit: None,
            offset: None,
            reverse: None,
        };
        if let Some(options) = pagination {
            options.add_to_body(&mut fields);
        }
        self.request(HttpMethod::Post, "/db/sms", false, RequestBody::Fields(fields))
    }

    /// The request for the phone numbers that were last in contact: a POST to
    /// `/db/latest-numbers`, with the paging options as its body where there
    /// are any.
    pub fn get_latest_numbers(&self, pagination: Option<HttpPaginationOptions>) -> (r: HttpResult<
        HttpRequest,
    >)
        ensures
            self.is_request(
                r,
                HttpMethod::Post,
                "/db/latest-numbers"@,
                false,
                match pagination {
                    Some(options) => RequestBody::Pagination(options),
                    None => RequestBody::Empty,
                },
            ),
    {
        let body = match pagination {
            Some(options) => RequestBody::Pagination(options),
            None => RequestBody::Empty,
        };
        self.request(HttpMethod::Post, "/db/latest-numbers", false, body)
    }

    /// The request for the delivery reports of a message: a POST to
    /// `/db/delivery-reports` with the message and the paging options.
    pub fn get_delivery_reports(
        &self,
        message_id: i64,
        pagination: Option<HttpPaginationOptions>,
    ) -> (r: HttpResult<HttpRequest>)
        ensures
            self.is_request(
                r,
                HttpMethod::Post,
                "/db/delivery-reports"@,
                false,
                RequestBody::Fields(
                    RequestFields {
                        phone_number: None,
                        message_id: Some(message_id),
                        limit: match pagination {
                            Some(options) => options.limit,
                            None => None,
                        },
                        offset: match pagination {
                            Some(options) => options.offset,
                            None => None,
                        },
                        reverse: match pagination {
                            Some(options) => options.reverse,
                            None => None,
                        },
                    },
                ),
            ),
    {
        let mut fields = RequestFields {
            phone_number: None,
            message_id: Some(message_id),
            limit: None,
            offset: None,
            reverse: None,
        };
        if let Some(options) = pagination {
            options.add_to_body(&mut fields);
        }
        self.request(HttpMethod::Post, "/db/delivery-reports", false, RequestBody::Fields(fields))
    }

    /// The request that sends a message: a POST to `/sms/send`, which goes
    /// through the modem.
    pub fn send_sms(&self, message: HttpOutgoingSmsMessage) -> (r: HttpResult<HttpRequest>)
        ensures
            self.is_request(r, HttpMethod::Post, "/sms/send"@, true, RequestBody::Message(message)),
    {
        self.request(HttpMethod::Post, "/sms/send", true, RequestBody::Message(message))
    }

    /// The request for the status of the carrier network.
    pub fn get_network_status(&self) -> (r: HttpResult<ModemRequest>)
        ensures
            self.is_modem_request(r, "modem-status"@, "NetworkStatus"@),
    {
        self.modem_request("modem-status", "NetworkStatus")
    }

    /// The request for the signal strength.
    pub fn get_signal_strength(&self) -> (r: HttpResult<ModemRequest>)
        ensures
            self.is_modem_request(r, "signal-strength"@, "SignalStrength"@),
    {
        self.modem_request("signal-strength", "SignalStrength")
    }

    /// The request for the network operator.
    pub fn get_network_operator(&self) -> (r: HttpResult<ModemRequest>)
        ensures
            self.is_modem_request(r, "network-operator"@, "NetworkOperator"@),
    {
        self.modem_request("network-operator", "NetworkOperator")
    }

    /// The request for the service provider of the SIM.
    pub fn get_service_provider(&self) -> (r: HttpResult<ModemRequest>)
        ensures
            self.is_modem_request(r, "service-provider"@, "ServiceProvider"@),
    {
        self.modem_request("service-provider", "ServiceProvider")
    }

    /// The request for the battery level.
    pub fn get_battery_level(&self) -> (r: HttpResult<ModemRequest>)
        ensures
            self.is_modem_request(r, "battery-level"@, "BatteryLevel"@),
    {
        self.modem_request("battery-level", "BatteryLevel")
    }

    /// The request for the configured phone number: a GET of `/sys/phone-number`.
    pub fn get_phone_number(&self) -> (r: HttpResult<HttpRequest>)
        ensures
            self.is_request(r, HttpMethod::Get, "/sys/phone-number"@, false, RequestBody::Empty),
    {
        self.request(HttpMethod::Get, "/sys/phone-number", false, RequestBody::Empty)
    }

    /// The request for the version of the gateway: a GET of `/sys/version`.
    pub fn get_version(&self) -> (r: HttpResult<HttpRequest>)
        ensures
            self.is_request(r, HttpMethod::Get, "/sys/version"@, false, RequestBody::Empty),
    {
        self.request(HttpMethod::Get, "/sys/version", false, RequestBody::Empty)
    }

    /// The modem request for a route under `/sms/`, whose answer must be of
    /// the expected type.
    fn modem_request(&self, route: &str, expected: &'static str) -> (r: HttpResult<ModemRequest>)
        ensures
            self.is_modem_request(r, route@, expected@),
    {
        let path = concatenated("/sms/", route);
        match self.request(HttpMethod::Get, path.as_str(), true, RequestBody::Empty) {
            Ok(request) => Ok(ModemRequest { request, expected }),
            Err(e) => Err(e),
        }
    }
}

} // verus!
