//! Messages of the WebSocket event feed.

use vstd::prelude::*;
use crate::text::str_equals;
use crate::types::{
    GnssPositionReport,
    ModemStatusUpdateState,
    SmsPartialDeliveryReport,
    SmsStoredMessage,
};

verus! {

/// A message of the event feed: five kinds that the server sends, and one
/// that is made locally when the connection comes or goes.
#[derive(Debug, Clone, PartialEq)]
pub enum WebsocketMessage {
    /// A new SMS message was received (`incoming` on the wire).
    IncomingMessage(SmsStoredMessage),
    /// An SMS message is being sent by the gateway or another client (`outgoing`).
    OutgoingMessage(SmsStoredMessage),
    /// A delivery report came in (`delivery`).
    DeliveryReport {
        /// The message the report is about.
        message_id: i64,
        /// The report.
        report: SmsPartialDeliveryReport,
    },
    /// The modem changed state (`modem_status_update`).
    ModemStatusUpdate {
        /// State before the change.
        previous: ModemStatusUpdateState,
        /// State after the change.
        current: ModemStatusUpdateState,
    },
    /// An unsolicited position report (`gnss_position_report`).
    GnssPositionReport(GnssPositionReport),
    /// The connection was established or lost. Never sent by the server.
    WebsocketConnectionUpdate {
        /// Whether the connection is up.
        connected: bool,
        /// For a lost connection, whether the client will connect again.
        reconnect: bool,
    },
}

/// The kinds of message that the server sends.
#[derive(Debug, Clone, Copy, PartialEq, Eq, Structural)]
pub enum WireEventKind {
    /// `incoming`
    Incoming,
    /// `outgoing`
    Outgoing,
    /// `delivery`
    Delivery,
    /// `modem_status_update`
    ModemStatusUpdate,
    /// `gnss_position_report`
    GnssPositionReport,
}

impl WireEventKind {
    /// The value of the `type` field that marks a message of this kind.
    pub open spec fn spec_tag(self) -> Seq<char> {
        match self {
            WireEventKind::Incoming => "incoming"@,
            WireEventKind::Outgoing => "outgoing"@,
            WireEventKind::Delivery => "delivery"@,
            WireEventKind::ModemStatusUpdate => "modem_status_update"@,
            WireEventKind::GnssPositionReport => "gnss_position_report"@,
        }
    }

    /// The kind that a `type` field names, if it names one.
    pub open spec fn spec_from_tag(tag: Seq<char>) -> Option<WireEventKind> {
        if tag == "incoming"@ {
            Some(WireEventKind::Incoming)
        } else if tag == "outgoing"@ {
            Some(WireEventKind::Outgoing)
        } else if tag == "delivery"@ {
            Some(WireEventKind::Delivery)
        } else if tag == "modem_status_update"@ {
            Some(WireEventKind::ModemStatusUpdate)
        } else if tag == "gnss_position_report"@ {
            Some(WireEventKind::GnssPositionReport)
        } else {
            None
        }
    }

    /// The value of the `type` field that marks a message of this kind.
    pub fn tag(self) -> (tag: &'static str)
        ensures
            tag@ == self.spec_tag(),
    {
        match self {
            WireEventKind::Incoming => "incoming",
            WireEventKind::Outgoing => "outgoing",
            WireEventKind::Delivery => "delivery",
            WireEventKind::ModemStatusUpdate => "modem_status_update",
            WireEventKind::GnssPositionReport => "gnss_position_report",
        }
    }

    /// The kind that a `type` field names; `None` for any other text.
    pub fn from_tag(tag: &str) -> (kind: Option<WireEventKind>)
        ensures
            kind == Self::spec_from_tag(tag@),
    {
        if str_equals(tag, "incoming") {
            Some(WireEventKind::Incoming)
        } else if str_equals(tag, "outgoing") {
            Some(WireEventKind::Outgoing)
        } else if str_equals(tag, "delivery") {
            Some(WireEventKind::Delivery)
        } else if str_equals(tag, "modem_status_update") {
            Some(WireEventKind::ModemStatusUpdate)
        } else if str_equals(tag, "gnss_position_report") {
            Some(WireEventKind::GnssPositionReport)
        } else {
            None
        }
    }
}

impl WebsocketMessage {
    /// The wire kind of a message; the local connection update has none.
    pub open spec fn spec_wire_kind(&self) -> Option<WireEventKind> {
        match self {
            WebsocketMessage::IncomingMessage(_) => Some(WireEventKind::Incoming),
            WebsocketMessage::OutgoingMessage(_) => Some(WireEventKind::Outgoing),
            WebsocketMessage::DeliveryReport { .. } => Some(WireEventKind::Delivery),
            WebsocketMessage::ModemStatusUpdate { .. } => Some(WireEventKind::ModemStatusUpdate),
            WebsocketMessage::GnssPositionReport(_) => Some(WireEventKind::GnssPositionReport),
            WebsocketMessage::WebsocketConnectionUpdate { .. } => None,
        }
    }

    /// The wire kind of a message; `None` for the local connection update.
    pub fn wire_kind(&self) -> (kind: Option<WireEventKind>)
        ensures
            kind == self.spec_wire_kind(),
    {
        match self {
            WebsocketMessage::IncomingMessage(_) => Some(WireEventKind::Incoming),
            WebsocketMessage::OutgoingMessage(_) => Some(WireEventKind::Outgoing),
            WebsocketMessage::DeliveryReport { .. } => Some(WireEventKind::Delivery),
            WebsocketMessage::ModemStatusUpdate { .. } => Some(WireEventKind::ModemStatusUpdate),
            WebsocketMessage::GnssPositionReport(_) => Some(WireEventKind::GnssPositionReport),
            WebsocketMessage::WebsocketConnectionUpdate { .. } => None,
        }
    }
}

/// The five tags are distinct, so a tag names the kind it was taken from.
pub proof fn lemma_tag_round_trip(kind: WireEventKind)
    ensures
        WireEventKind::spec_from_tag(kind.spec_tag()) == Some(kind),
{
    reveal_strlit("incoming");
    reveal_strlit("outgoing");
    reveal_strlit("delivery");
    reveal_strlit("modem_status_update");
    reveal_strlit("gnss_position_report");
    assert("incoming"@.len() == 8);
    assert("outgoing"@.len() == 8);
    assert("delivery"@.len() == 8);
    assert("modem_status_update"@.len() == 19);
    assert("gnss_position_report"@.len() == 20);
    assert("incoming"@[0] == 'i');
    assert("outgoing"@[0] == 'o');
    assert("delivery"@[0] == 'd');
}

} // verus!
