//! Requests and responses of the HTTP interface.

use vstd::prelude::*;
use vstd::std_specs::convert::FromSpecImpl;
use crate::types::SmsStoredMessage;

verus! {

/// Paging of a large result: how many values to return, from where, and in
/// which direction. The server applies it when it reads its database.
#[derive(PartialEq, Eq, Debug, Clone, Copy, Structural)]
pub struct HttpPaginationOptions {
    /// The most values to return.
    pub limit: Option<u64>,
    /// The index of the first value to return.
    pub offset: Option<u64>,
    /// Whether to return the values in reverse order.
    pub reverse: Option<bool>,
}

/// The fields of a request body that the gateway reads. A field that is
/// `None` is left out of the body.
#[derive(PartialEq, Debug, Clone)]
pub struct RequestFields {
    /// The phone number whose messages are asked for.
    pub phone_number: Option<String>,
    /// The message whose delivery reports are asked for.
    pub message_id: Option<i64>,
    /// The most values to return.
    pub limit: Option<u64>,
    /// The index of the first value to return.
    pub offset: Option<u64>,
    /// Whether to return the values in reverse order.
    pub reverse: Option<bool>,
}

impl Default for HttpPaginationOptions {
    fn default() -> (options: Self)
        ensures
            options == (HttpPaginationOptions { limit: None, offset: None, reverse: None }),
    {
        HttpPaginationOptions { limit: None, offset: None, reverse: None }
    }
}

impl HttpPaginationOptions {
    /// Sets the page size.
    pub fn with_limit(self, limit: u64) -> (options: Self)
        ensures
            options == (HttpPaginationOptions { limit: Some(limit), ..self }),
    {
        let mut options = self;
        options.limit = Some(limit);
        options
    }

    /// Sets the position to start from.
    pub fn with_offset(self, offset: u64) -> (options: Self)
        ensures
            options == (HttpPaginationOptions { offset: Some(offset), ..self }),
    {
        let mut options = self;
        options.offset = Some(offset);
        options
    }

    /// Sets the direction.
    pub fn with_reverse(self, reverse: bool) -> (options: Self)
        ensures
            options == (HttpPaginationOptions { reverse: Some(reverse), ..self }),
    {
        let mut options = self;
        options.reverse = Some(reverse);
        options
    }

    /// The body after the options were added to it: every option that is set
    /// replaces the field of its name, and every other field stays.
    pub open spec fn spec_add_to_body(&self, body: RequestFields) -> RequestFields {
        RequestFields {
            limit: if self.limit is Some {
                self.limit
            } else {
                body.limit
            },
            offset: if self.offset is Some {
                self.offset
            } else {
                body.offset
            },
            reverse: if self.reverse is Some {
                self.reverse
            } else {
                body.reverse
            },
            ..body
        }
    }

    /// Adds the options that are set to a request body.
    pub fn add_to_body(&self, body: &mut RequestFields)
        ensures
            *final(body) == self.spec_add_to_body(*old(body)),
    {
        if let Some(limit) = self.limit {
            body.limit = Some(limit);
        }
        if let Some(offset) = self.offset {
            body.offset = Some(offset);
        }
        if let Some(reverse) = self.reverse {
            body.reverse = Some(reverse);
        }
    }
}

/// An SMS message to send.
#[derive(PartialEq, Debug, Clone)]
pub struct HttpOutgoingSmsMessage {
    /// The phone number to send to, in international format.
    pub to: String,
    /// The text; the server splits it into several messages where it must.
    pub content: String,
    /// How long the message may wait undelivered; the server's default where `None`.
    pub validity_period: Option<u8>,
    /// Whether to send the message as a flash message, which pops up on the device.
    pub flash: Option<bool>,
    /// A timeout for the whole request; the default one where `None`.
    pub timeout: Option<u32>,
}

impl HttpOutgoingSmsMessage {
    /// A message with the server's validity period, no flash and no timeout.
    pub fn simple_message(to: &str, content: &str) -> (message: Self)
        ensures
            message.to@ == to@,
            message.content@ == content@,
            message.validity_period is None,
            message.flash is None,
            message.timeout is None,
    {
        HttpOutgoingSmsMessage {
            to: to.to_owned(),
            content: content.to_owned(),
            validity_period: None,
            flash: None,
            timeout: None,
        }
    }

    /// Sets whether the message is a flash message.
    pub fn with_flash(self, flash: bool) -> (message: Self)
        ensures
            message == (HttpOutgoingSmsMessage { flash: Some(flash), ..self }),
    {
        let mut message = self;
        message.flash = Some(flash);
        message
    }

    /// Sets the validity period.
    pub fn with_validity_period(self, period: u8) -> (message: Self)
        ensures
            message == (HttpOutgoingSmsMessage { validity_period: Some(period), ..self }),
    {
        let mut message = self;
        message.validity_period = Some(period);
        message
    }

    /// Sets the timeout of the request.
    pub fn with_timeout(self, timeout: u32) -> (message: Self)
        ensures
            message == (HttpOutgoingSmsMessage { timeout: Some(timeout), ..self }),
    {
        let mut message = self;
        message.timeout = Some(timeout);
        message
    }
}

/// The answer to a message that was sent.
#[derive(PartialEq, Eq, Debug, Clone, Copy, Structural)]
pub struct HttpSmsSendResponse {
    /// The identifier given to the message.
    pub message_id: i64,
    /// The modem's reference for the message.
    pub reference_id: u8,
}

/// A delivery report of a message that was sent.
#[derive(PartialEq, Eq, Debug, Clone, Copy, Structural)]
pub struct HttpSmsDeliveryReport {
    /// The identifier of the report.
    pub report_id: Option<i64>,
    /// The status octet from the network.
    pub status: u8,
    /// Whether this is the last report for the message.
    pub is_final: bool,
    /// Unix timestamp of the report.
    pub created_at: Option<u32>,
}

/// The modem's registration with the network.
#[derive(PartialEq, Eq, Debug, Clone, Copy, Structural)]
pub struct HttpModemNetworkStatusResponse {
    /// Registration status: 0 not registered, 1 home, 5 roaming.
    pub registration: u8,
    /// The network technology in use.
    pub technology: u8,
}

/// The modem's signal strength.
#[derive(PartialEq, Eq, Debug, Clone, Copy, Structural)]
pub struct HttpModemSignalStrengthResponse {
    /// Received signal strength indicator: 0 to 31, 99 unknown.
    pub rssi: u8,
    /// Bit error rate: 0 to 7, 99 unknown.
    pub ber: u8,
}

/// The network operator of the modem.
#[derive(PartialEq, Debug, Clone)]
pub struct HttpModemNetworkOperatorResponse {
    /// How the operator was selected: 0 automatic, 1 manual.
    pub status: u8,
    /// Format of the name: 0 long, 1 short, 2 numeric.
    pub format: u8,
    /// Name or code of the operator.
    pub operator: String,
}

/// The battery of the modem. The voltage is carried as the bit pattern of its
/// IEEE 754 binary32 value.
#[derive(PartialEq, Eq, Debug, Clone, Copy, Structural)]
pub struct HttpModemBatteryLevelResponse {
    /// 0 not charging, 1 charging, 2 no battery.
    pub status: u8,
    /// Charge in percent.
    pub charge: u8,
    /// Voltage in volts, as binary32 bits.
    pub voltage: u32,
}

/// The message that was sent, with what the gateway answered, as a stored
/// message: outgoing, of status "Unknown", without timestamps.
impl From<(HttpOutgoingSmsMessage, HttpSmsSendResponse)> for SmsStoredMessage {
    fn from(value: (HttpOutgoingSmsMessage, HttpSmsSendResponse)) -> (message: SmsStoredMessage)
        ensures
            message.message_id == value.1.message_id,
            message.phone_number == value.0.to,
            message.message_content == value.0.content,
            message.message_reference == Some(value.1.reference_id),
            message.is_outgoing,
            message.status@ == "Unknown"@,
            message.created_at is None,
            message.completed_at is None,
    {
        SmsStoredMessage {
            message_id: value.1.message_id,
            phone_number: value.0.to,
            message_content: value.0.content,
            message_reference: Some(value.1.reference_id),
            is_outgoing: true,
            status: "Unknown".to_owned(),
            created_at: None,
            completed_at: None,
        }
    }
}

impl FromSpecImpl<(HttpOutgoingSmsMessage, HttpSmsSendResponse)> for SmsStoredMessage {
    open spec fn obeys_from_spec() -> bool {
        false
    }

    open spec fn from_spec(value: (HttpOutgoingSmsMessage, HttpSmsSendResponse)) -> Self {
        arbitrary()
    }
}

/// Device information as the gateway sends it, each group of values as a tuple.
#[derive(PartialEq, Debug, Clone)]
pub struct HttpSmsDeviceInfoResponse {
    /// The phone number of the device.
    pub phone_number: Option<String>,
    /// The service provider.
    pub service_provider: Option<String>,
    /// The network operator: selection status, name format, name.
    pub network_operator: Option<(u8, u8, String)>,
    /// The network status: registration, technology.
    pub network_status: Option<(u8, u8)>,
    /// The battery: status, charge, voltage as binary32 bits.
    pub battery: Option<(u8, u8, u32)>,
    /// The signal: strength, bit error rate.
    pub signal: Option<(u8, u8)>,
}

/// Device information with each group of values in its own type.
#[derive(PartialEq, Debug, Clone)]
pub struct HttpSmsDeviceInfoData {
    /// The phone number of the device.
    pub phone_number: Option<String>,
    /// The service provider.
    pub service_provider: Option<String>,
    /// The network operator.
    pub network_operator: Option<HttpModemNetworkOperatorResponse>,
    /// The network status.
    pub network_status: Option<HttpModemNetworkStatusResponse>,
    /// The battery.
    pub battery: Option<HttpModemBatteryLevelResponse>,
    /// The signal.
    pub signal: Option<HttpModemSignalStrengthResponse>,
}

/// Device information with each tuple of the response unpacked into its type,
/// field by field in the tuple's order.
pub open spec fn spec_device_info(value: HttpSmsDeviceInfoResponse) -> HttpSmsDeviceInfoData {
    HttpSmsDeviceInfoData {
        phone_number: value.phone_number,
        service_provider: value.service_provider,
        network_operator: match value.network_operator {
            Some(v) => Some(
                HttpModemNetworkOperatorResponse { status: v.0, format: v.1, operator: v.2 },
            ),
            None => None,
        },
        network_status: match value.network_status {
            Some(v) => Some(HttpModemNetworkStatusResponse { registration: v.0, technology: v.1 }),
            None => None,
        },
        battery: match value.battery {
            Some(v) => Some(
                HttpModemBatteryLevelResponse { status: v.0, charge: v.1, voltage: v.2 },
            ),
            None => None,
        },
        signal: match value.signal {
            Some(v) => Some(HttpModemSignalStrengthResponse { rssi: v.0, ber: v.1 }),
            None => None,
        },
    }
}

impl From<HttpSmsDeviceInfoResponse> for HttpSmsDeviceInfoData {
    fn from(value: HttpSmsDeviceInfoResponse) -> (data: HttpSmsDeviceInfoData) {
        HttpSmsDeviceInfoData {
            phone_number: value.phone_number,
            service_provider: value.service_provider,
            network_operator: match value.network_operator {
                Some(v) => Some(
                    HttpModemNetworkOperatorResponse { status: v.0, format: v.1, operator: v.2 },
                ),
                None => None,
            },
            network_status: match value.network_status {
                Some(v) => Some(
                    HttpModemNetworkStatusResponse { registration: v.0, technology: v.1 },
                ),
                None => None,
            },
            battery: match value.battery {
                Some(v) => Some(
                    HttpModemBatteryLevelResponse { status: v.0, charge: v.1, voltage: v.2 },
                ),
                None => None,
            },
            signal: match value.signal {
                Some(v) => Some(HttpModemSignalStrengthResponse { rssi: v.0, ber: v.1 }),
                None => None,
            },
        }
    }
}

impl FromSpecImpl<HttpSmsDeviceInfoResponse> for HttpSmsDeviceInfoData {
    open spec fn obeys_from_spec() -> bool {
        true
    }

    open spec fn from_spec(value: HttpSmsDeviceInfoResponse) -> Self {
        spec_device_info(value)
    }
}

/// A phone number and its friendly name, as the latest-numbers request returns them.
pub type LatestNumberFriendlyNamePair = (String, Option<String>);

} // verus!
