use sms_client::types::{
    ModemStatusUpdateState, SmsDeliveryReportStatus, SmsDeliveryReportStatusGroup,
};
use sms_client::ws::types::{WebsocketMessage, WireEventKind};

#[test]
fn status_from_assigned_codes() {
    assert_eq!(SmsDeliveryReportStatus::from(0x00), SmsDeliveryReportStatus::ReceivedBySme);
    assert_eq!(SmsDeliveryReportStatus::from(0x01), SmsDeliveryReportStatus::ForwardedButUnconfirmed);
    assert_eq!(SmsDeliveryReportStatus::from(0x02), SmsDeliveryReportStatus::ReplacedBySc);
    assert_eq!(SmsDeliveryReportStatus::from(0x20), SmsDeliveryReportStatus::Congestion);
    assert_eq!(SmsDeliveryReportStatus::from(0x25), SmsDeliveryReportStatus::ErrorInSme);
    assert_eq!(SmsDeliveryReportStatus::from(0x40), SmsDeliveryReportStatus::RemoteProcedureError);
    assert_eq!(SmsDeliveryReportStatus::from(0x49), SmsDeliveryReportStatus::SmDoesNotExist);
    assert_eq!(SmsDeliveryReportStatus::from(0x60), SmsDeliveryReportStatus::CongestionNoRetry);
    assert_eq!(SmsDeliveryReportStatus::from(0x65), SmsDeliveryReportStatus::ErrorInSmeNoRetry);
}

#[test]
fn status_from_other_codes_is_unknown() {
    for code in [0x03u8, 0x1F, 0x26, 0x3F, 0x4A, 0x5F, 0x66, 0x7F, 0x80, 0xFF] {
        assert_eq!(SmsDeliveryReportStatus::from(code), SmsDeliveryReportStatus::Unknown(code));
    }
}

#[test]
fn status_code_round_trip() {
    for code in 0..=255u8 {
        assert_eq!(SmsDeliveryReportStatus::from(code).code(), code);
    }
}

#[test]
fn status_predicates_by_range() {
    for code in 0..=255u8 {
        let status = SmsDeliveryReportStatus::from(code);
        assert_eq!(status.is_successful(), code <= 0x02, "{:#x}", code);
        assert_eq!(status.is_temporary_retrying(), (0x20..=0x3F).contains(&code), "{:#x}", code);
        assert_eq!(status.is_permanent_error(), (0x40..=0x5F).contains(&code), "{:#x}", code);
        assert_eq!(status.is_temporary_no_retry(), (0x60..=0x7F).contains(&code), "{:#x}", code);
    }
}

#[test]
fn status_groups() {
    assert_eq!(SmsDeliveryReportStatus::ReceivedBySme.to_status_group(), SmsDeliveryReportStatusGroup::Received);
    assert_eq!(SmsDeliveryReportStatus::ReplacedBySc.to_status_group(), SmsDeliveryReportStatusGroup::Received);
    assert_eq!(SmsDeliveryReportStatus::SmeBusy.to_status_group(), SmsDeliveryReportStatusGroup::Sent);
    assert_eq!(SmsDeliveryReportStatus::Unknown(0x30).to_status_group(), SmsDeliveryReportStatusGroup::Sent);
    assert_eq!(SmsDeliveryReportStatus::NotObtainable.to_status_group(), SmsDeliveryReportStatusGroup::PermanentFailure);
    assert_eq!(SmsDeliveryReportStatus::Unknown(0x50).to_status_group(), SmsDeliveryReportStatusGroup::PermanentFailure);
    assert_eq!(SmsDeliveryReportStatus::SmeBusyNoRetry.to_status_group(), SmsDeliveryReportStatusGroup::TemporaryFailure);
    assert_eq!(SmsDeliveryReportStatus::Unknown(0x70).to_status_group(), SmsDeliveryReportStatusGroup::TemporaryFailure);
    assert_eq!(SmsDeliveryReportStatus::Unknown(0x03).to_status_group(), SmsDeliveryReportStatusGroup::PermanentFailure);
    assert_eq!(SmsDeliveryReportStatus::Unknown(0x00).to_status_group(), SmsDeliveryReportStatusGroup::PermanentFailure);
    assert_eq!(SmsDeliveryReportStatus::Unknown(0xFF).to_status_group(), SmsDeliveryReportStatusGroup::PermanentFailure);
    assert_eq!(
        SmsDeliveryReportStatusGroup::from(SmsDeliveryReportStatus::Congestion),
        SmsDeliveryReportStatusGroup::Sent
    );
}

#[test]
fn unknown_with_assigned_success_code_is_not_successful() {
    assert!(!SmsDeliveryReportStatus::Unknown(0x00).is_successful());
    assert!(SmsDeliveryReportStatus::Unknown(0x20).is_temporary_retrying());
}

#[test]
fn modem_state_names() {
    assert_eq!(ModemStatusUpdateState::Startup.to_string(), "Startup");
    assert_eq!(ModemStatusUpdateState::Online.to_string(), "Online");
    assert_eq!(ModemStatusUpdateState::ShuttingDown.to_string(), "ShuttingDown");
    assert_eq!(ModemStatusUpdateState::Offline.to_string(), "Offline");
}

#[test]
fn wire_tags_round_trip() {
    let kinds = [
        (WireEventKind::Incoming, "incoming"),
        (WireEventKind::Outgoing, "outgoing"),
        (WireEventKind::Delivery, "delivery"),
        (WireEventKind::ModemStatusUpdate, "modem_status_update"),
        (WireEventKind::GnssPositionReport, "gnss_position_report"),
    ];
    for (kind, tag) in kinds {
        assert_eq!(kind.tag(), tag);
        assert_eq!(WireEventKind::from_tag(tag), Some(kind));
    }
    for other in ["", "Incoming", "incoming ", "WebsocketConnectionUpdate", "deliver"] {
        assert_eq!(WireEventKind::from_tag(other), None);
    }
}

#[test]
fn connection_update_has_no_wire_kind() {
    let update = WebsocketMessage::WebsocketConnectionUpdate { connected: true, reconnect: false };
    assert_eq!(update.wire_kind(), None);
    let status = WebsocketMessage::ModemStatusUpdate {
        previous: ModemStatusUpdateState::Online,
        current: ModemStatusUpdateState::Offline,
    };
    assert_eq!(status.wire_kind(), Some(WireEventKind::ModemStatusUpdate));
}
