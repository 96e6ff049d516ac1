//! Errors of the HTTP interface.

use vstd::prelude::*;
use crate::text::{concatenated, decimal, decimal_string, is_blank, is_blank_text};

verus! {

/// An error of the HTTP client.
#[derive(Debug, Clone, PartialEq)]
pub enum HttpError {
    /// The request failed in transit; holds the transport's message.
    RequestError(String),
    /// The address could not be parsed; holds the parser's message.
    UrlParseError(String),
    /// The response body is not the expected JSON; holds the codec's message.
    JsonError(String),
    /// The response carried a status outside 200 to 299.
    HttpStatus {
        /// The status of the response.
        status: u16,
        /// The body of the response as text.
        message: String,
    },
    /// The gateway answered with `success` false.
    ApiError {
        /// The gateway's error message.
        message: String,
    },
    /// The response has no `response` field.
    MissingResponseField,
    /// The modem response has no `type` field.
    MissingTypeField,
    /// The modem response has no `data` field.
    MissingDataField,
    /// The modem response is of another type than was asked for.
    ResponseTypeMismatch {
        /// The type that was asked for.
        expected: String,
        /// The type that came back.
        actual: String,
    },
}

/// Result of HTTP operations.
pub type HttpResult<T> = Result<T, HttpError>;

impl HttpError {
    /// The reason phrase of a status.
    pub open spec fn spec_status_text(status: u16) -> Seq<char> {
        if status == 200 {
            "OK"@
        } else if status == 400 {
            "Bad Request"@
        } else if status == 401 {
            "Unauthorized"@
        } else if status == 403 {
            "Forbidden"@
        } else if status == 404 {
            "Not Found"@
        } else if status == 405 {
            "Method Not Allowed"@
        } else if status == 408 {
            "Not Acceptable"@
        } else if status == 429 {
            "Too Many Requests"@
        } else if status == 500 {
            "Internal Server Error"@
        } else if status == 503 {
            "Service Unavailable"@
        } else if status == 504 {
            "Gateway Timeout"@
        } else {
            "Unknown"@
        }
    }

    /// The description of a failed status: `HTTP`, the status and its reason
    /// phrase where the body is blank, and `HTTP`, the status, a colon and
    /// the body where it is not.
    pub open spec fn spec_format_http_error(status: u16, message: Seq<char>) -> Seq<char> {
        if is_blank_text(message) {
            "HTTP "@ + decimal(status as nat) + " "@ + Self::spec_status_text(status)
        } else {
            "HTTP "@ + decimal(status as nat) + ": "@ + message
        }
    }

    /// The text that describes the error.
    pub open spec fn spec_to_string(&self) -> Seq<char> {
        match self {
            HttpError::RequestError(message) => "Network request failed: "@ + message@,
            HttpError::UrlParseError(message) => "Invalid URL: "@ + message@,
            HttpError::JsonError(message) => "JSON parsing failed: "@ + message@,
            HttpError::HttpStatus { status, message } => Self::spec_format_http_error(
                *status,
                message@,
            ),
            HttpError::ApiError { message } => "API responded with success=false: "@ + message@,
            HttpError::MissingResponseField => "Missing 'response' field in API response"@,
            HttpError::MissingTypeField => "Missing 'type' field in API response"@,
            HttpError::MissingDataField => "Missing 'data' field in API response"@,
            HttpError::ResponseTypeMismatch { expected, actual } => "Type mismatch: expected '"@
                + expected@ + "', got '"@ + actual@ + "'"@,
        }
    }

    /// The reason phrase of a status; `Unknown` for a status without one here.
    pub fn status_text(status: u16) -> (text: &'static str)
        ensures
            text@ == Self::spec_status_text(status),
    {
        match status {
            200 => "OK",
            400 => "Bad Request",
            401 => "Unauthorized",
            403 => "Forbidden",
            404 => "Not Found",
            405 => "Method Not Allowed",
            408 => "Not Acceptable",
            429 => "Too Many Requests",
            500 => "Internal Server Error",
            503 => "Service Unavailable",
            504 => "Gateway Timeout",
            _ => "Unknown",
        }
    }

    /// The description of a response with a failed status and this body.
    pub fn format_http_error(status: u16, message: &str) -> (text: String)
        ensures
            text@ == Self::spec_format_http_error(status, message@),
    {
        let mut text = concatenated("HTTP ", decimal_string(status).as_str());
        if is_blank(message) {
            text.append(" ");
            text.append(Self::status_text(status));
        } else {
            text.append(": ");
            text.append(message);
        }
        text
    }

    /// The text that describes the error.
    pub fn to_string(&self) -> (text: String)
        ensures
            text@ == self.spec_to_string(),
    {
        match self {
            HttpError::RequestError(message) => concatenated(
                "Network request failed: ",
                message.as_str(),
            ),
            HttpError::UrlParseError(message) => concatenated("Invalid URL: ", message.as_str()),
            HttpError::JsonError(message) => concatenated("JSON parsing failed: ", message.as_str()),
            HttpError::HttpStatus { status, message } => Self::format_http_error(
                *status,
                message.as_str(),
            ),
            HttpError::ApiError { message } => concatenated(
                "API responded with success=false: ",
                message.as_str(),
            ),
            HttpError::MissingResponseField => "Missing 'response' field in API response".to_owned(),
            HttpError::MissingTypeField => "Missing 'type' field in API response".to_owned(),
            HttpError::MissingDataField => "Missing 'data' field in API response".to_owned(),
            HttpError::ResponseTypeMismatch { expected, actual } => {
                let mut text = concatenated("Type mismatch: expected '", expected.as_str());
                text.append("', got '");
                text.append(actual.as_str());
                text.append("'");
                text
            },
        }
    }
}

} // verus!
