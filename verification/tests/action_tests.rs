use ocpp_cp_simulator::types::CommonConnectorStatusType;
use ocpp_cp_simulator::v2_0_1::OcppAction as A2;
use ocpp_cp_simulator::v1_6::OcppAction;
use ocpp_cp_simulator::version::OcppVersion;

const V16_ACTIONS: [OcppAction; 27] = [
    OcppAction::BootNotification,
    OcppAction::Heartbeat,
    OcppAction::Authorize,
    OcppAction::StartTransaction,
    OcppAction::StopTransaction,
    OcppAction::StatusNotification,
    OcppAction::MeterValues,
    OcppAction::DiagnosticsStatusNotification,
    OcppAction::FirmwareStatusNotification,
    OcppAction::DataTransfer,
    OcppAction::RemoteStartTransaction,
    OcppAction::RemoteStopTransaction,
    OcppAction::Reset,
    OcppAction::ChangeAvailability,
    OcppAction::ChangeConfiguration,
    OcppAction::GetConfiguration,
    OcppAction::ClearCache,
    OcppAction::UpdateFirmware,
    OcppAction::GetDiagnostics,
    OcppAction::UnlockConnector,
    OcppAction::CancelReservation,
    OcppAction::ReserveNow,
    OcppAction::SetChargingProfile,
    OcppAction::ClearChargingProfile,
    OcppAction::GetCompositeSchedule,
    OcppAction::GetLocalListVersion,
    OcppAction::SendLocalList,
];

#[test]
fn v16_action_names_round_trip() {
    for a in V16_ACTIONS {
        assert_eq!(OcppAction::from_name(a.wire_name()), Some(a), "{}", a.wire_name());
    }
}

#[test]
fn v16_action_names_are_distinct() {
    for (i, a) in V16_ACTIONS.iter().enumerate() {
        for b in &V16_ACTIONS[i + 1..] {
            assert_ne!(a.wire_name(), b.wire_name());
        }
    }
}

#[test]
fn v16_unknown_action_name() {
    assert_eq!(OcppAction::from_name("NonExistent"), None);
    assert_eq!(OcppAction::from_name(""), None);
    assert_eq!(OcppAction::from_name("heartbeat"), None);
}

#[test]
fn v2_action_names_round_trip() {
    for a in [
        A2::BootNotification,
        A2::Heartbeat,
        A2::TransactionEvent,
        A2::StatusNotification,
        A2::MeterValues,
        A2::DataTransfer,
        A2::Get15118EVCertificate,
        A2::SetNetworkProfile,
    ] {
        assert_eq!(A2::from_name(a.wire_name()), Some(a));
    }
    assert_eq!(A2::from_name("StartTransaction"), None);
}

#[test]
fn version_headers_round_trip() {
    for v in [OcppVersion::V1_6, OcppVersion::V2_0_1, OcppVersion::V2_1] {
        assert_eq!(OcppVersion::from(v.header()), Some(v));
    }
    assert_eq!(OcppVersion::from("ocpp9.9"), None);
    assert_eq!(OcppVersion::V1_6.header(), "ocpp1.6");
    assert_eq!(OcppVersion::V2_0_1.header(), "ocpp2.0.1");
    assert_eq!(OcppVersion::V2_1.header(), "ocpp2.1");
}

type S = CommonConnectorStatusType;

#[test]
fn connector_status_wire_names() {
    assert_eq!(S::Available.v16_name(), "Available");
    assert_eq!(S::SuspendedEVSE.v16_name(), "SuspendedEVSE");
    assert_eq!(S::Faulted.v16_name(), "Faulted");
    // 2.x collapses the occupancy states
    assert_eq!(S::Preparing.v2_name(), "Occupied");
    assert_eq!(S::Charging.v2_name(), "Occupied");
    assert_eq!(S::Finishing.v2_name(), "Occupied");
    assert_eq!(S::Reserved.v2_name(), "Reserved");
    assert_eq!(S::Available.v2_name(), "Available");
}

#[test]
fn cp_originated_actions() {
    assert!(OcppAction::MeterValues.is_cp_originated());
    assert!(OcppAction::BootNotification.is_cp_originated());
    assert!(!OcppAction::RemoteStartTransaction.is_cp_originated());
    assert!(!OcppAction::Reset.is_cp_originated());
}
