//! Types shared by the HTTP and the WebSocket interface.

use vstd::prelude::*;
use vstd::std_specs::convert::FromSpecImpl;

verus! {

/// A stored SMS message, as the gateway's database holds it.
#[derive(PartialEq, Debug, Clone)]
pub struct SmsStoredMessage {
    /// Unique identifier of the message.
    pub message_id: i64,
    /// The phone number the message was exchanged with.
    pub phone_number: String,
    /// The text of the message.
    pub message_content: String,
    /// Reference number assigned by the modem; only outgoing messages have one.
    pub message_reference: Option<u8>,
    /// Whether the message was sent (true) or received (false).
    pub is_outgoing: bool,
    /// Status of the message, such as "sent", "delivered" or "failed".
    pub status: String,
    /// Unix timestamp of creation.
    pub created_at: Option<u32>,
    /// Unix timestamp of completion or delivery.
    pub completed_at: Option<u32>,
}

/// A delivery report as the modem hands it over.
#[derive(PartialEq, Debug, Clone)]
pub struct SmsPartialDeliveryReport {
    /// The phone number that received the message and sent the report back.
    pub phone_number: String,
    /// The message reference assigned by the modem.
    pub reference_id: u8,
    /// The SMS TP-Status octet.
    pub status: u8,
}

/// The SMS TP-Status of a delivery report.
///
/// The named variants are the status octets that the standard assigns; every
/// other octet is carried by `Unknown`.
#[derive(Debug, Clone, Copy, PartialEq, Eq, Structural)]
pub enum SmsDeliveryReportStatus {
    /// Short message received by the SME (0x00).
    ReceivedBySme,
    /// Forwarded to the SME, delivery cannot be confirmed (0x01).
    ForwardedButUnconfirmed,
    /// Replaced by the service centre (0x02).
    ReplacedBySc,
    /// Congestion, the service centre retries (0x20).
    Congestion,
    /// SME busy, the service centre retries (0x21).
    SmeBusy,
    /// No response from the SME, the service centre retries (0x22).
    NoResponseFromSme,
    /// Service rejected, the service centre retries (0x23).
    ServiceRejected,
    /// Quality of service not available, the service centre retries (0x24).
    QualityOfServiceNotAvailable,
    /// Error in the SME, the service centre retries (0x25).
    ErrorInSme,
    /// Remote procedure error, permanent (0x40).
    RemoteProcedureError,
    /// Incompatible destination, permanent (0x41).
    IncompatibleDestination,
    /// Connection rejected by the SME, permanent (0x42).
    ConnectionRejectedBySme,
    /// Destination not obtainable, permanent (0x43).
    NotObtainable,
    /// Quality of service not available, permanent (0x44).
    QualityOfServiceNotAvailablePermanent,
    /// No interworking available, permanent (0x45).
    NoInterworkingAvailable,
    /// Validity period expired, permanent (0x46).
    SmValidityPeriodExpired,
    /// Deleted by the originating SME, permanent (0x47).
    SmDeletedByOriginatingSme,
    /// Deleted by the service centre's administration, permanent (0x48).
    SmDeletedByScAdministration,
    /// The message does not exist in the service centre, permanent (0x49).
    SmDoesNotExist,
    /// Congestion, the service centre has given up (0x60).
    CongestionNoRetry,
    /// SME busy, the service centre has given up (0x61).
    SmeBusyNoRetry,
    /// No response from the SME, the service centre has given up (0x62).
    NoResponseFromSmeNoRetry,
    /// Service rejected, the service centre has given up (0x63).
    ServiceRejectedNoRetry,
    /// Quality of service not available, the service centre has given up (0x64).
    QualityOfServiceNotAvailableNoRetry,
    /// Error in the SME, the service centre has given up (0x65).
    ErrorInSmeNoRetry,
    /// A reserved or service-centre specific octet.
    Unknown(u8),
}

/// A coarse grouping of delivery statuses.
#[derive(Debug, Clone, Copy, PartialEq, Eq, Structural)]
pub enum SmsDeliveryReportStatusGroup {
    /// Sent, delivery still pending.
    Sent,
    /// Received by the destination.
    Received,
    /// Temporary failure, and the service centre has stopped retrying.
    TemporaryFailure,
    /// Permanent failure.
    PermanentFailure,
}

/// The status octet that a named variant stands for, and the carried octet of `Unknown`.
pub open spec fn status_code(status: SmsDeliveryReportStatus) -> u8 {
    match status {
        SmsDeliveryReportStatus::ReceivedBySme => 0x00,
        SmsDeliveryReportStatus::ForwardedButUnconfirmed => 0x01,
        SmsDeliveryReportStatus::ReplacedBySc => 0x02,
        SmsDeliveryReportStatus::Congestion => 0x20,
        SmsDeliveryReportStatus::SmeBusy => 0x21,
        SmsDeliveryReportStatus::NoResponseFromSme => 0x22,
        SmsDeliveryReportStatus::ServiceRejected => 0x23,
        SmsDeliveryReportStatus::QualityOfServiceNotAvailable => 0x24,
        SmsDeliveryReportStatus::ErrorInSme => 0x25,
        SmsDeliveryReportStatus::RemoteProcedureError => 0x40,
        SmsDeliveryReportStatus::IncompatibleDestination => 0x41,
        SmsDeliveryReportStatus::ConnectionRejectedBySme => 0x42,
        SmsDeliveryReportStatus::NotObtainable => 0x43,
        SmsDeliveryReportStatus::QualityOfServiceNotAvailablePermanent => 0x44,
        SmsDeliveryReportStatus::NoInterworkingAvailable => 0x45,
        SmsDeliveryReportStatus::SmValidityPeriodExpired => 0x46,
        SmsDeliveryReportStatus::SmDeletedByOriginatingSme => 0x47,
        SmsDeliveryReportStatus::SmDeletedByScAdministration => 0x48,
        SmsDeliveryReportStatus::SmDoesNotExist => 0x49,
        SmsDeliveryReportStatus::CongestionNoRetry => 0x60,
        SmsDeliveryReportStatus::SmeBusyNoRetry => 0x61,
        SmsDeliveryReportStatus::NoResponseFromSmeNoRetry => 0x62,
        SmsDeliveryReportStatus::ServiceRejectedNoRetry => 0x63,
        SmsDeliveryReportStatus::QualityOfServiceNotAvailableNoRetry => 0x64,
        SmsDeliveryReportStatus::ErrorInSmeNoRetry => 0x65,
        SmsDeliveryReportStatus::Unknown(value) => value,
    }
}

/// Whether the standard assigns a meaning to the octet.
pub open spec fn is_assigned_code(value: u8) -> bool {
    ||| value <= 0x02
    ||| 0x20 <= value <= 0x25
    ||| 0x40 <= value <= 0x49
    ||| 0x60 <= value <= 0x65
}

/// The status that an octet decodes to: the named variant with that octet
/// where the standard assigns one, and `Unknown` with the octet otherwise.
pub open spec fn status_of_code(value: u8) -> SmsDeliveryReportStatus {
    if value == 0x00 {
        SmsDeliveryReportStatus::ReceivedBySme
    } else if value == 0x01 {
        SmsDeliveryReportStatus::ForwardedButUnconfirmed
    } else if value == 0x02 {
        SmsDeliveryReportStatus::ReplacedBySc
    } else if value == 0x20 {
        SmsDeliveryReportStatus::Congestion
    } else if value == 0x21 {
        SmsDeliveryReportStatus::SmeBusy
    } else if value == 0x22 {
        SmsDeliveryReportStatus::NoResponseFromSme
    } else if value == 0x23 {
        SmsDeliveryReportStatus::ServiceRejected
    } else if value == 0x24 {
        SmsDeliveryReportStatus::QualityOfServiceNotAvailable
    } else if value == 0x25 {
        SmsDeliveryReportStatus::ErrorInSme
    } else if value == 0x40 {
        SmsDeliveryReportStatus::RemoteProcedureError
    } else if value == 0x41 {
        SmsDeliveryReportStatus::IncompatibleDestination
    } else if value == 0x42 {
        SmsDeliveryReportStatus::ConnectionRejectedBySme
    } else if value == 0x43 {
        SmsDeliveryReportStatus::NotObtainable
    } else if value == 0x44 {
        SmsDeliveryReportStatus::QualityOfServiceNotAvailablePermanent
    } else if value == 0x45 {
        SmsDeliveryReportStatus::NoInterworkingAvailable
    } else if value == 0x46 {
        SmsDeliveryReportStatus::SmValidityPeriodExpired
    } else if value == 0x47 {
        SmsDeliveryReportStatus::SmDeletedByOriginatingSme
    } else if value == 0x48 {
        SmsDeliveryReportStatus::SmDeletedByScAdministration
    } else if value == 0x49 {
        SmsDeliveryReportStatus::SmDoesNotExist
    } else if value == 0x60 {
        SmsDeliveryReportStatus::CongestionNoRetry
    } else if value == 0x61 {
        SmsDeliveryReportStatus::SmeBusyNoRetry
    } else if value == 0x62 {
        SmsDeliveryReportStatus::NoResponseFromSmeNoRetry
    } else if value == 0x63 {
        SmsDeliveryReportStatus::ServiceRejectedNoRetry
    } else if value == 0x64 {
        SmsDeliveryReportStatus::QualityOfServiceNotAvailableNoRetry
    } else if value == 0x65 {
        SmsDeliveryReportStatus::ErrorInSmeNoRetry
    } else {
        SmsDeliveryReportStatus::Unknown(value)
    }
}

/// The group of an octet by the range it lies in: 0x00 to 0x02 received,
/// 0x20 to 0x3F still being retried, 0x60 to 0x7F given up after a temporary
/// error, and everything else a permanent failure.
pub open spec fn group_of_code(value: u8) -> SmsDeliveryReportStatusGroup {
    if value <= 0x02 {
        SmsDeliveryReportStatusGroup::Received
    } else if 0x20 <= value <= 0x3F {
        SmsDeliveryReportStatusGroup::Sent
    } else if 0x60 <= value <= 0x7F {
        SmsDeliveryReportStatusGroup::TemporaryFailure
    } else {
        SmsDeliveryReportStatusGroup::PermanentFailure
    }
}

impl From<u8> for SmsDeliveryReportStatus {
    fn from(value: u8) -> (status: Self) {
        match value {
            0x00 => SmsDeliveryReportStatus::ReceivedBySme,
            0x01 => SmsDeliveryReportStatus::ForwardedButUnconfirmed,
            0x02 => SmsDeliveryReportStatus::ReplacedBySc,
            0x20 => SmsDeliveryReportStatus::Congestion,
            0x21 => SmsDeliveryReportStatus::SmeBusy,
            0x22 => SmsDeliveryReportStatus::NoResponseFromSme,
            0x23 => SmsDeliveryReportStatus::ServiceRejected,
            0x24 => SmsDeliveryReportStatus::QualityOfServiceNotAvailable,
            0x25 => SmsDeliveryReportStatus::ErrorInSme,
            0x40 => SmsDeliveryReportStatus::RemoteProcedureError,
            0x41 => SmsDeliveryReportStatus::IncompatibleDestination,
            0x42 => SmsDeliveryReportStatus::ConnectionRejectedBySme,
            0x43 => SmsDeliveryReportStatus::NotObtainable,
            0x44 => SmsDeliveryReportStatus::QualityOfServiceNotAvailablePermanent,
            0x45 => SmsDeliveryReportStatus::NoInterworkingAvailable,
            0x46 => SmsDeliveryReportStatus::SmValidityPeriodExpired,
            0x47 => SmsDeliveryReportStatus::SmDeletedByOriginatingSme,
            0x48 => SmsDeliveryReportStatus::SmDeletedByScAdministration,
            0x49 => SmsDeliveryReportStatus::SmDoesNotExist,
            0x60 => SmsDeliveryReportStatus::CongestionNoRetry,
            0x61 => SmsDeliveryReportStatus::SmeBusyNoRetry,
            0x62 => SmsDeliveryReportStatus::NoResponseFromSmeNoRetry,
            0x63 => SmsDeliveryReportStatus::ServiceRejectedNoRetry,
            0x64 => SmsDeliveryReportStatus::QualityOfServiceNotAvailableNoRetry,
            0x65 => SmsDeliveryReportStatus::ErrorInSmeNoRetry,
            _ => SmsDeliveryReportStatus::Unknown(value),
        }
    }
}

impl FromSpecImpl<u8> for SmsDeliveryReportStatus {
    open spec fn obeys_from_spec() -> bool {
        true
    }

    open spec fn from_spec(value: u8) -> Self {
        status_of_code(value)
    }
}

impl SmsDeliveryReportStatus {
    /// Whether the message reached the SME.
    pub open spec fn spec_is_successful(&self) -> bool {
        !(self is Unknown) && status_code(*self) <= 0x02
    }

    /// Whether delivery failed for now and the service centre still retries.
    pub open spec fn spec_is_temporary_retrying(&self) -> bool {
        0x20 <= status_code(*self) <= 0x3F
    }

    /// Whether delivery failed for good.
    pub open spec fn spec_is_permanent_error(&self) -> bool {
        0x40 <= status_code(*self) <= 0x5F
    }

    /// Whether delivery failed for now and the service centre has given up.
    pub open spec fn spec_is_temporary_no_retry(&self) -> bool {
        0x60 <= status_code(*self) <= 0x7F
    }

    /// The group of a status: `Unknown` octets below 0x20 are permanent
    /// failures, every other status has the group of its octet's range.
    pub open spec fn spec_to_status_group(&self) -> SmsDeliveryReportStatusGroup {
        if *self is Unknown && status_code(*self) <= 0x02 {
            SmsDeliveryReportStatusGroup::PermanentFailure
        } else {
            group_of_code(status_code(*self))
        }
    }

    /// The status octet of this status.
    pub fn code(&self) -> (value: u8)
        ensures
            value == status_code(*self),
    {
        match self {
            SmsDeliveryReportStatus::ReceivedBySme => 0x00,
            SmsDeliveryReportStatus::ForwardedButUnconfirmed => 0x01,
            SmsDeliveryReportStatus::ReplacedBySc => 0x02,
            SmsDeliveryReportStatus::Congestion => 0x20,
            SmsDeliveryReportStatus::SmeBusy => 0x21,
            SmsDeliveryReportStatus::NoResponseFromSme => 0x22,
            SmsDeliveryReportStatus::ServiceRejected => 0x23,
            SmsDeliveryReportStatus::QualityOfServiceNotAvailable => 0x24,
            SmsDeliveryReportStatus::ErrorInSme => 0x25,
            SmsDeliveryReportStatus::RemoteProcedureError => 0x40,
            SmsDeliveryReportStatus::IncompatibleDestination => 0x41,
            SmsDeliveryReportStatus::ConnectionRejectedBySme => 0x42,
            SmsDeliveryReportStatus::NotObtainable => 0x43,
            SmsDeliveryReportStatus::QualityOfServiceNotAvailablePermanent => 0x44,
            SmsDeliveryReportStatus::NoInterworkingAvailable => 0x45,
            SmsDeliveryReportStatus::SmValidityPeriodExpired => 0x46,
            SmsDeliveryReportStatus::SmDeletedByOriginatingSme => 0x47,
            SmsDeliveryReportStatus::SmDeletedByScAdministration => 0x48,
            SmsDeliveryReportStatus::SmDoesNotExist => 0x49,
            SmsDeliveryReportStatus::CongestionNoRetry => 0x60,
            SmsDeliveryReportStatus::SmeBusyNoRetry => 0x61,
            SmsDeliveryReportStatus::NoResponseFromSmeNoRetry => 0x62,
            SmsDeliveryReportStatus::ServiceRejectedNoRetry => 0x63,
            SmsDeliveryReportStatus::QualityOfServiceNotAvailableNoRetry => 0x64,
            SmsDeliveryReportStatus::ErrorInSmeNoRetry => 0x65,
            SmsDeliveryReportStatus::Unknown(value) => *value,
        }
    }

    /// Returns true if the message was delivered to the SME.
    pub fn is_successful(&self) -> (r: bool)
        ensures
            r == self.spec_is_successful(),
    {
        match self {
            SmsDeliveryReportStatus::ReceivedBySme
            | SmsDeliveryReportStatus::ForwardedButUnconfirmed
            | SmsDeliveryReportStatus::ReplacedBySc => true,
            _ => false,
        }
    }

    /// Returns true if this is a temporary error and the service centre still retries.
    pub fn is_temporary_retrying(&self) -> (r: bool)
        ensures
            r == self.spec_is_temporary_retrying(),
    {
        match self {
            SmsDeliveryReportStatus::Congestion
            | SmsDeliveryReportStatus::SmeBusy
            | SmsDeliveryReportStatus::NoResponseFromSme
            | SmsDeliveryReportStatus::ServiceRejected
            | SmsDeliveryReportStatus::QualityOfServiceNotAvailable
            | SmsDeliveryReportStatus::ErrorInSme => true,
            SmsDeliveryReportStatus::Unknown(value) => *value >= 0x20 && *value <= 0x3F,
            _ => false,
        }
    }

    /// Returns true if this is a permanent error.
    pub fn is_permanent_error(&self) -> (r: bool)
        ensures
            r == self.spec_is_permanent_error(),
    {
        match self {
            SmsDeliveryReportStatus::RemoteProcedureError
            | SmsDeliveryReportStatus::IncompatibleDestination
            | SmsDeliveryReportStatus::ConnectionRejectedBySme
            | SmsDeliveryReportStatus::NotObtainable
            | SmsDeliveryReportStatus::QualityOfServiceNotAvailablePermanent
            | SmsDeliveryReportStatus::NoInterworkingAvailable
            | SmsDeliveryReportStatus::SmValidityPeriodExpired
            | SmsDeliveryReportStatus::SmDeletedByOriginatingSme
            | SmsDeliveryReportStatus::SmDeletedByScAdministration
            | SmsDeliveryReportStatus::SmDoesNotExist => true,
            SmsDeliveryReportStatus::Unknown(value) => *value >= 0x40 && *value <= 0x5F,
            _ => false,
        }
    }

    /// Returns true if this is a temporary error and the service centre has given up.
    pub fn is_temporary_no_retry(&self) -> (r: bool)
        ensures
            r == self.spec_is_temporary_no_retry(),
    {
        match self {
            SmsDeliveryReportStatus::CongestionNoRetry
            | SmsDeliveryReportStatus::SmeBusyNoRetry
            | SmsDeliveryReportStatus::NoResponseFromSmeNoRetry
            | SmsDeliveryReportStatus::ServiceRejectedNoRetry
            | SmsDeliveryReportStatus::QualityOfServiceNotAvailableNoRetry
            | SmsDeliveryReportStatus::ErrorInSmeNoRetry => true,
            SmsDeliveryReportStatus::Unknown(value) => *value >= 0x60 && *value <= 0x7F,
            _ => false,
        }
    }

    /// The group that the status falls into.
    pub fn to_status_group(&self) -> (group: SmsDeliveryReportStatusGroup)
        ensures
            group == self.spec_to_status_group(),
    {
        if self.is_successful() {
            SmsDeliveryReportStatusGroup::Received
        } else if self.is_temporary_retrying() {
            SmsDeliveryReportStatusGroup::Sent
        } else if self.is_permanent_error() {
            SmsDeliveryReportStatusGroup::PermanentFailure
        } else if self.is_temporary_no_retry() {
            SmsDeliveryReportStatusGroup::TemporaryFailure
        } else {
            SmsDeliveryReportStatusGroup::PermanentFailure
        }
    }
}

impl From<SmsDeliveryReportStatus> for SmsDeliveryReportStatusGroup {
    fn from(status: SmsDeliveryReportStatus) -> (group: Self) {
        status.to_status_group()
    }
}

impl FromSpecImpl<SmsDeliveryReportStatus> for SmsDeliveryReportStatusGroup {
    open spec fn obeys_from_spec() -> bool {
        true
    }

    open spec fn from_spec(status: SmsDeliveryReportStatus) -> Self {
        status.spec_to_status_group()
    }
}

/// Decoding an octet and taking the status's octet gives the octet back.
pub proof fn lemma_status_code_round_trip(value: u8)
    ensures
        status_code(status_of_code(value)) == value,
        status_of_code(value) is Unknown <==> !is_assigned_code(value),
{
}

/// A decoded octet is in exactly the group of its range, so exactly one of
/// the four predicates holds of it where its range has one, and none elsewhere.
pub proof fn lemma_decoded_status_group(value: u8)
    ensures
        status_of_code(value).spec_to_status_group() == group_of_code(value),
        status_of_code(value).spec_is_successful() <==> value <= 0x02,
        status_of_code(value).spec_is_temporary_retrying() <==> 0x20 <= value <= 0x3F,
        status_of_code(value).spec_is_permanent_error() <==> 0x40 <= value <= 0x5F,
        status_of_code(value).spec_is_temporary_no_retry() <==> 0x60 <= value <= 0x7F,
{
}

/// The state of the modem.
#[derive(PartialEq, Eq, Debug, Clone, Copy, Structural)]
pub enum ModemStatusUpdateState {
    /// The modem is starting up.
    Startup,
    /// The modem is online.
    Online,
    /// The modem is shutting down.
    ShuttingDown,
    /// The modem is offline.
    Offline,
}

impl ModemStatusUpdateState {
    /// The name of the state as it is written on the wire and shown to users.
    pub open spec fn spec_name(&self) -> Seq<char> {
        match self {
            ModemStatusUpdateState::Startup => "Startup"@,
            ModemStatusUpdateState::Online => "Online"@,
            ModemStatusUpdateState::ShuttingDown => "ShuttingDown"@,
            ModemStatusUpdateState::Offline => "Offline"@,
        }
    }

    /// The name of the state.
    pub fn to_string(&self) -> (name: String)
        ensures
            name@ == self.spec_name(),
    {
        match self {
            ModemStatusUpdateState::Startup => "Startup".to_owned(),
            ModemStatusUpdateState::Online => "Online".to_owned(),
            ModemStatusUpdateState::ShuttingDown => "ShuttingDown".to_owned(),
            ModemStatusUpdateState::Offline => "Offline".to_owned(),
        }
    }
}

/// The kind of position fix of the satellite receiver.
#[derive(PartialEq, Eq, Debug, Clone, Copy, Structural)]
pub enum GnssFixStatus {
    /// The fix status is unknown.
    Unknown,
    /// No fix.
    NotFix,
    /// Latitude and longitude only.
    Fix2D,
    /// Latitude, longitude and altitude.
    Fix3D,
}

/// A position report of the satellite receiver.
///
/// Measured quantities are carried as the bit patterns of their IEEE 754
/// values (binary64 for the position, binary32 for the rest), so that a report
/// passes through unchanged.
#[derive(PartialEq, Debug, Clone)]
pub struct GnssPositionReport {
    /// Whether the receiver is running.
    pub run_status: bool,
    /// Whether a valid fix has been obtained.
    pub fix_status: bool,
    /// UTC time of the report, ISO 8601.
    pub utc_time: String,
    /// Latitude in decimal degrees, as binary64 bits.
    pub latitude: Option<u64>,
    /// Longitude in decimal degrees, as binary64 bits.
    pub longitude: Option<u64>,
    /// Altitude above mean sea level in metres, as binary64 bits.
    pub msl_altitude: Option<u64>,
    /// Ground speed in metres per second, as binary32 bits.
    pub ground_speed: Option<u32>,
    /// Ground course in degrees, as binary32 bits.
    pub ground_course: Option<u32>,
    /// Whether the fix is 2D, 3D or unknown.
    pub fix_mode: GnssFixStatus,
    /// Horizontal dilution of precision, as binary32 bits.
    pub hdop: Option<u32>,
    /// Position dilution of precision, as binary32 bits.
    pub pdop: Option<u32>,
    /// Vertical dilution of precision, as binary32 bits.
    pub vdop: Option<u32>,
    /// Number of GPS satellites in view.
    pub gps_in_view: Option<u8>,
    /// Number of satellites used in the fix.
    pub gnss_used: Option<u8>,
    /// Number of GLONASS satellites in view.
    pub glonass_in_view: Option<u8>,
}

} // verus!
