//! The OCPP 2.0.1 action catalog and components: the 2.x actions with
//! their stable wire names, the message generator, and the message handler.

pub mod msg_generator;
pub mod msg_handler;

use vstd::prelude::*;
use crate::strutil::str_eq;

verus! {

/// An OCPP 2.0.1 action.
#[derive(Clone, Copy, Debug, PartialEq, Eq, Structural)]
pub enum OcppAction {
    Authorize,
    BootNotification,
    Heartbeat,
    MeterValues,
    StatusNotification,
    TransactionEvent,
    GetBaseReport,
    GetReport,
    GetVariables,
    SetVariables,
    UpdateFirmware,
    PublishFirmware,
    UnpublishFirmware,
    GetFirmwareStatusNotification,
    FirmwareStatusNotification,
    CertificateSigned,
    DeleteCertificate,
    GetInstalledCertificateIds,
    InstallCertificate,
    SecurityEventNotification,
    SignCertificate,
    SetChargingProfile,
    ClearChargingProfile,
    GetChargingProfiles,
    GetCompositeSchedule,
    NotifyChargingLimit,
    ClearVariableMonitoring,
    SetVariableMonitoring,
    ReserveNow,
    CancelReservation,
    TriggerMessage,
    ChangeAvailability,
    UnlockConnector,
    Reset,
    ClearCache,
    Get15118EVCertificate,
    GetCertificateStatus,
    GetCRL,
    GetLocalListVersion,
    SendLocalList,
    SetNetworkProfile,
    DataTransfer,
}

/// The stable wire name of an action.
pub open spec fn action_name(a: OcppAction) -> Seq<char> {
    match a {
        OcppAction::Authorize => "Authorize"@,
        OcppAction::BootNotification => "BootNotification"@,
        OcppAction::Heartbeat => "Heartbeat"@,
        OcppAction::MeterValues => "MeterValues"@,
        OcppAction::StatusNotification => "StatusNotification"@,
        OcppAction::TransactionEvent => "TransactionEvent"@,
        OcppAction::GetBaseReport => "GetBaseReport"@,
        OcppAction::GetReport => "GetReport"@,
        OcppAction::GetVariables => "GetVariables"@,
        OcppAction::SetVariables => "SetVariables"@,
        OcppAction::UpdateFirmware => "UpdateFirmware"@,
        OcppAction::PublishFirmware => "PublishFirmware"@,
        OcppAction::UnpublishFirmware => "UnpublishFirmware"@,
        OcppAction::GetFirmwareStatusNotification => "GetFirmwareStatusNotification"@,
        OcppAction::FirmwareStatusNotification => "FirmwareStatusNotification"@,
        OcppAction::CertificateSigned => "CertificateSigned"@,
        OcppAction::DeleteCertificate => "DeleteCertificate"@,
        OcppAction::GetInstalledCertificateIds => "GetInstalledCertificateIds"@,
        OcppAction::InstallCertificate => "InstallCertificate"@,
        OcppAction::SecurityEventNotification => "SecurityEventNotification"@,
        OcppAction::SignCertificate => "SignCertificate"@,
        OcppAction::SetChargingProfile => "SetChargingProfile"@,
        OcppAction::ClearChargingProfile => "ClearChargingProfile"@,
        OcppAction::GetChargingProfiles => "GetChargingProfiles"@,
        OcppAction::GetCompositeSchedule => "GetCompositeSchedule"@,
        OcppAction::NotifyChargingLimit => "NotifyChargingLimit"@,
        OcppAction::ClearVariableMonitoring => "ClearVariableMonitoring"@,
        OcppAction::SetVariableMonitoring => "SetVariableMonitoring"@,
        OcppAction::ReserveNow => "ReserveNow"@,
        OcppAction::CancelReservation => "CancelReservation"@,
        OcppAction::TriggerMessage => "TriggerMessage"@,
        OcppAction::ChangeAvailability => "ChangeAvailability"@,
        OcppAction::UnlockConnector => "UnlockConnector"@,
        OcppAction::Reset => "Reset"@,
        OcppAction::ClearCache => "ClearCache"@,
        OcppAction::Get15118EVCertificate => "Get15118EVCertificate"@,
        OcppAction::GetCertificateStatus => "GetCertificateStatus"@,
        OcppAction::GetCRL => "GetCRL"@,
        OcppAction::GetLocalListVersion => "GetLocalListVersion"@,
        OcppAction::SendLocalList => "SendLocalList"@,
        OcppAction::SetNetworkProfile => "SetNetworkProfile"@,
        OcppAction::DataTransfer => "DataTransfer"@,
    }
}

/// The action a wire name stands for, if any.
pub open spec fn action_of_name(s: Seq<char>) -> Option<OcppAction> {
    if s == action_name(OcppAction::Authorize) { Some(OcppAction::Authorize) }
    else if s == action_name(OcppAction::BootNotification) { Some(OcppAction::BootNotification) }
    else if s == action_name(OcppAction::Heartbeat) { Some(OcppAction::Heartbeat) }
    else if s == action_name(OcppAction::MeterValues) { Some(OcppAction::MeterValues) }
    else if s == action_name(OcppAction::StatusNotification) { Some(OcppAction::StatusNotification) }
    else if s == action_name(OcppAction::TransactionEvent) { Some(OcppAction::TransactionEvent) }
    else if s == action_name(OcppAction::GetBaseReport) { Some(OcppAction::GetBaseReport) }
    else if s == action_name(OcppAction::GetReport) { Some(OcppAction::GetReport) }
    else if s == action_name(OcppAction::GetVariables) { Some(OcppAction::GetVariables) }
    else if s == action_name(OcppAction::SetVariables) { Some(OcppAction::SetVariables) }
    else if s == action_name(OcppAction::UpdateFirmware) { Some(OcppAction::UpdateFirmware) }
    else if s == action_name(OcppAction::PublishFirmware) { Some(OcppAction::PublishFirmware) }
    else if s == action_name(OcppAction::UnpublishFirmware) { Some(OcppAction::UnpublishFirmware) }
    else if s == action_name(OcppAction::GetFirmwareStatusNotification) { Some(OcppAction::GetFirmwareStatusNotification) }
    else if s == action_name(OcppAction::FirmwareStatusNotification) { Some(OcppAction::FirmwareStatusNotification) }
    else if s == action_name(OcppAction::CertificateSigned) { Some(OcppAction::CertificateSigned) }
    else if s == action_name(OcppAction::DeleteCertificate) { Some(OcppAction::DeleteCertificate) }
    else if s == action_name(OcppAction::GetInstalledCertificateIds) { Some(OcppAction::GetInstalledCertificateIds) }
    else if s == action_name(OcppAction::InstallCertificate) { Some(OcppAction::InstallCertificate) }
    else if s == action_name(OcppAction::SecurityEventNotification) { Some(OcppAction::SecurityEventNotification) }
    else if s == action_name(OcppAction::SignCertificate) { Some(OcppAction::SignCertificate) }
    else if s == action_name(OcppAction::SetChargingProfile) { Some(OcppAction::SetChargingProfile) }
    else if s == action_name(OcppAction::ClearChargingProfile) { Some(OcppAction::ClearChargingProfile) }
    else if s == action_name(OcppAction::GetChargingProfiles) { Some(OcppAction::GetChargingProfiles) }
    else if s == action_name(OcppAction::GetCompositeSchedule) { Some(OcppAction::GetCompositeSchedule) }
    else if s == action_name(OcppAction::NotifyChargingLimit) { Some(OcppAction::NotifyChargingLimit) }
    else if s == action_name(OcppAction::ClearVariableMonitoring) { Some(OcppAction::ClearVariableMonitoring) }
    else if s == action_name(OcppAction::SetVariableMonitoring) { Some(OcppAction::SetVariableMonitoring) }
    else if s == action_name(OcppAction::ReserveNow) { Some(OcppAction::ReserveNow) }
    else if s == action_name(OcppAction::CancelReservation) { Some(OcppAction::CancelReservation) }
    else if s == action_name(OcppAction::TriggerMessage) { Some(OcppAction::TriggerMessage) }
    else if s == action_name(OcppAction::ChangeAvailability) { Some(OcppAction::ChangeAvailability) }
    else if s == action_name(OcppAction::UnlockConnector) { Some(OcppAction::UnlockConnector) }
    else if s == action_name(OcppAction::Reset) { Some(OcppAction::Reset) }
    else if s == action_name(OcppAction::ClearCache) { Some(OcppAction::ClearCache) }
    else if s == action_name(OcppAction::Get15118EVCertificate) { Some(OcppAction::Get15118EVCertificate) }
    else if s == action_name(OcppAction::GetCertificateStatus) { Some(OcppAction::GetCertificateStatus) }
    else if s == action_name(OcppAction::GetCRL) { Some(OcppAction::GetCRL) }
    else if s == action_name(OcppAction::GetLocalListVersion) { Some(OcppAction::GetLocalListVersion) }
    else if s == action_name(OcppAction::SendLocalList) { Some(OcppAction::SendLocalList) }
    else if s == action_name(OcppAction::SetNetworkProfile) { Some(OcppAction::SetNetworkProfile) }
    else if s == action_name(OcppAction::DataTransfer) { Some(OcppAction::DataTransfer) }
    else { None }
}

/// Wire names identify actions: reading back an action's own name gives
/// that action.
#[verifier::rlimit(100)]
pub proof fn lemma_action_name_round_trip(a: OcppAction)
    ensures
        action_of_name(action_name(a)) == Some(a),
{
    reveal_strlit("Authorize");
    reveal_strlit("BootNotification");
    reveal_strlit("Heartbeat");
    reveal_strlit("MeterValues");
    reveal_strlit("StatusNotification");
    reveal_strlit("TransactionEvent");
    reveal_strlit("GetBaseReport");
    reveal_strlit("GetReport");
    reveal_strlit("GetVariables");
    reveal_strlit("SetVariables");
    reveal_strlit("UpdateFirmware");
    reveal_strlit("PublishFirmware");
    reveal_strlit("UnpublishFirmware");
    reveal_strlit("GetFirmwareStatusNotification");
    reveal_strlit("FirmwareStatusNotification");
    reveal_strlit("CertificateSigned");
    reveal_strlit("DeleteCertificate");
    reveal_strlit("GetInstalledCertificateIds");
    reveal_strlit("InstallCertificate");
    reveal_strlit("SecurityEventNotification");
    reveal_strlit("SignCertificate");
    reveal_strlit("SetChargingProfile");
    reveal_strlit("ClearChargingProfile");
    reveal_strlit("GetChargingProfiles");
    reveal_strlit("GetCompositeSchedule");
    reveal_strlit("NotifyChargingLimit");
    reveal_strlit("ClearVariableMonitoring");
    reveal_strlit("SetVariableMonitoring");
    reveal_strlit("ReserveNow");
    reveal_strlit("CancelReservation");
    reveal_strlit("TriggerMessage");
    reveal_strlit("ChangeAvailability");
    reveal_strlit("UnlockConnector");
    reveal_strlit("Reset");
    reveal_strlit("ClearCache");
    reveal_strlit("Get15118EVCertificate");
    reveal_strlit("GetCertificateStatus");
    reveal_strlit("GetCRL");
    reveal_strlit("GetLocalListVersion");
    reveal_strlit("SendLocalList");
    reveal_strlit("SetNetworkProfile");
    reveal_strlit("DataTransfer");
    assert(("Authorize"@).len() == 9);
    assert(("Authorize"@)[0] == 'A');
    assert(("Authorize"@)[1] == 'u');
    assert(("Authorize"@)[2] == 't');
    assert(("Authorize"@)[3] == 'h');
    assert(("Authorize"@)[4] == 'o');
    assert(("BootNotification"@).len() == 16);
    assert(("BootNotification"@)[0] == 'B');
    assert(("BootNotification"@)[1] == 'o');
    assert(("BootNotification"@)[2] == 'o');
    assert(("BootNotification"@)[3] == 't');
    assert(("BootNotification"@)[4] == 'N');
    assert(("Heartbeat"@).len() == 9);
    assert(("Heartbeat"@)[0] == 'H');
    assert(("Heartbeat"@)[1] == 'e');
    assert(("Heartbeat"@)[2] == 'a');
    assert(("Heartbeat"@)[3] == 'r');
    assert(("Heartbeat"@)[4] == 't');
    assert(("MeterValues"@).len() == 11);
    assert(("MeterValues"@)[0] == 'M');
    assert(("MeterValues"@)[1] == 'e');
    assert(("MeterValues"@)[2] == 't');
    assert(("MeterValues"@)[3] == 'e');
    assert(("MeterValues"@)[4] == 'r');
    assert(("StatusNotification"@).len() == 18);
    assert(("StatusNotification"@)[0] == 'S');
    assert(("StatusNotification"@)[1] == 't');
    assert(("StatusNotification"@)[2] == 'a');
    assert(("StatusNotification"@)[3] == 't');
    assert(("StatusNotification"@)[4] == 'u');
    assert(("TransactionEvent"@).len() == 16);
    assert(("TransactionEvent"@)[0] == 'T');
    assert(("TransactionEvent"@)[1] == 'r');
    assert(("TransactionEvent"@)[2] == 'a');
    assert(("TransactionEvent"@)[3] == 'n');
    assert(("TransactionEvent"@)[4] == 's');
    assert(("GetBaseReport"@).len() == 13);
    assert(("GetBaseReport"@)[0] == 'G');
    assert(("GetBaseReport"@)[1] == 'e');
    assert(("GetBaseReport"@)[2] == 't');
    assert(("GetBaseReport"@)[3] == 'B');
    assert(("GetBaseReport"@)[4] == 'a');
    assert(("GetReport"@).len() == 9);
    assert(("GetReport"@)[0] == 'G');
    assert(("GetReport"@)[1] == 'e');
    assert(("GetReport"@)[2] == 't');
    assert(("GetReport"@)[3] == 'R');
    assert(("GetReport"@)[4] == 'e');
    assert(("GetVariables"@).len() == 12);
    assert(("GetVariables"@)[0] == 'G');
    assert(("GetVariables"@)[1] == 'e');
    assert(("GetVariables"@)[2] == 't');
    assert(("GetVariables"@)[3] == 'V');
    assert(("GetVariables"@)[4] == 'a');
    assert(("SetVariables"@).len() == 12);
    assert(("SetVariables"@)[0] == 'S');
    assert(("SetVariables"@)[1] == 'e');
    assert(("SetVariables"@)[2] == 't');
    assert(("SetVariables"@)[3] == 'V');
    assert(("SetVariables"@)[4] == 'a');
    assert(("UpdateFirmware"@).len() == 14);
    assert(("UpdateFirmware"@)[0] == 'U');
    assert(("UpdateFirmware"@)[1] == 'p');
    assert(("UpdateFirmware"@)[2] == 'd');
    assert(("UpdateFirmware"@)[3] == 'a');
    assert(("UpdateFirmware"@)[4] == 't');
    assert(("PublishFirmware"@).len() == 15);
    assert(("PublishFirmware"@)[0] == 'P');
    assert(("PublishFirmware"@)[1] == 'u');
    assert(("PublishFirmware"@)[2] == 'b');
    assert(("PublishFirmware"@)[3] == 'l');
    assert(("PublishFirmware"@)[4] == 'i');
    assert(("UnpublishFirmware"@).len() == 17);
    assert(("UnpublishFirmware"@)[0] == 'U');
    assert(("UnpublishFirmware"@)[1] == 'n');
    assert(("UnpublishFirmware"@)[2] == 'p');
    assert(("UnpublishFirmware"@)[3] == 'u');
    assert(("UnpublishFirmware"@)[4] == 'b');
    assert(("GetFirmwareStatusNotification"@).len() == 29);
    assert(("GetFirmwareStatusNotification"@)[0] == 'G');
    assert(("GetFirmwareStatusNotification"@)[1] == 'e');
    assert(("GetFirmwareStatusNotification"@)[2] == 't');
    assert(("GetFirmwareStatusNotification"@)[3] == 'F');
    assert(("GetFirmwareStatusNotification"@)[4] == 'i');
    assert(("FirmwareStatusNotification"@).len() == 26);
    assert(("FirmwareStatusNotification"@)[0] == 'F');
    assert(("FirmwareStatusNotification"@)[1] == 'i');
    assert(("FirmwareStatusNotification"@)[2] == 'r');
    assert(("FirmwareStatusNotification"@)[3] == 'm');
    assert(("FirmwareStatusNotification"@)[4] == 'w');
    assert(("CertificateSigned"@).len() == 17);
    assert(("CertificateSigned"@)[0] == 'C');
    assert(("CertificateSigned"@)[1] == 'e');
    assert(("CertificateSigned"@)[2] == 'r');
    assert(("CertificateSigned"@)[3] == 't');
    assert(("CertificateSigned"@)[4] == 'i');
    assert(("DeleteCertificate"@).len() == 17);
    assert(("DeleteCertificate"@)[0] == 'D');
    assert(("DeleteCertificate"@)[1] == 'e');
    assert(("DeleteCertificate"@)[2] == 'l');
    assert(("DeleteCertificate"@)[3] == 'e');
    assert(("DeleteCertificate"@)[4] == 't');
    assert(("GetInstalledCertificateIds"@).len() == 26);
    assert(("GetInstalledCertificateIds"@)[0] == 'G');
    assert(("GetInstalledCertificateIds"@)[1] == 'e');
    assert(("GetInstalledCertificateIds"@)[2] == 't');
    assert(("GetInstalledCertificateIds"@)[3] == 'I');
    assert(("GetInstalledCertificateIds"@)[4] == 'n');
    assert(("InstallCertificate"@).len() == 18);
    assert(("InstallCertificate"@)[0] == 'I');
    assert(("InstallCertificate"@)[1] == 'n');
    assert(("InstallCertificate"@)[2] == 's');
    assert(("InstallCertificate"@)[3] == 't');
    assert(("InstallCertificate"@)[4] == 'a');
    assert(("SecurityEventNotification"@).len() == 25);
    assert(("SecurityEventNotification"@)[0] == 'S');
    assert(("SecurityEventNotification"@)[1] == 'e');
    assert(("SecurityEventNotification"@)[2] == 'c');
    assert(("SecurityEventNotification"@)[3] == 'u');
    assert(("SecurityEventNotification"@)[4] == 'r');
    assert(("SignCertificate"@).len() == 15);
    assert(("SignCertificate"@)[0] == 'S');
    assert(("SignCertificate"@)[1] == 'i');
    assert(("SignCertificate"@)[2] == 'g');
    assert(("SignCertificate"@)[3] == 'n');
    assert(("SignCertificate"@)[4] == 'C');
    assert(("SetChargingProfile"@).len() == 18);
    assert(("SetChargingProfile"@)[0] == 'S');
    assert(("SetChargingProfile"@)[1] == 'e');
    assert(("SetChargingProfile"@)[2] == 't');
    assert(("SetChargingProfile"@)[3] == 'C');
    assert(("SetChargingProfile"@)[4] == 'h');
    assert(("ClearChargingProfile"@).len() == 20);
    assert(("ClearChargingProfile"@)[0] == 'C');
    assert(("ClearChargingProfile"@)[1] == 'l');
    assert(("ClearChargingProfile"@)[2] == 'e');
    assert(("ClearChargingProfile"@)[3] == 'a');
    assert(("ClearChargingProfile"@)[4] == 'r');
    assert(("GetChargingProfiles"@).len() == 19);
    assert(("GetChargingProfiles"@)[0] == 'G');
    assert(("GetChargingProfiles"@)[1] == 'e');
    assert(("GetChargingProfiles"@)[2] == 't');
    assert(("GetChargingProfiles"@)[3] == 'C');
    assert(("GetChargingProfiles"@)[4] == 'h');
    assert(("GetCompositeSchedule"@).len() == 20);
    assert(("GetCompositeSchedule"@)[0] == 'G');
    assert(("GetCompositeSchedule"@)[1] == 'e');
    assert(("GetCompositeSchedule"@)[2] == 't');
    assert(("GetCompositeSchedule"@)[3] == 'C');
    assert(("GetCompositeSchedule"@)[4] == 'o');
    assert(("NotifyChargingLimit"@).len() == 19);
    assert(("NotifyChargingLimit"@)[0] == 'N');
    assert(("NotifyChargingLimit"@)[1] == 'o');
    assert(("NotifyChargingLimit"@)[2] == 't');
    assert(("NotifyChargingLimit"@)[3] == 'i');
    assert(("NotifyChargingLimit"@)[4] == 'f');
    assert(("ClearVariableMonitoring"@).len() == 23);
    assert(("ClearVariableMonitoring"@)[0] == 'C');
    assert(("ClearVariableMonitoring"@)[1] == 'l');
    assert(("ClearVariableMonitoring"@)[2] == 'e');
    assert(("ClearVariableMonitoring"@)[3] == 'a');
    assert(("ClearVariableMonitoring"@)[4] == 'r');
    assert(("SetVariableMonitoring"@).len() == 21);
    assert(("SetVariableMonitoring"@)[0] == 'S');
    assert(("SetVariableMonitoring"@)[1] == 'e');
    assert(("SetVariableMonitoring"@)[2] == 't');
    assert(("SetVariableMonitoring"@)[3] == 'V');
    assert(("SetVariableMonitoring"@)[4] == 'a');
    assert(("ReserveNow"@).len() == 10);
    assert(("ReserveNow"@)[0] == 'R');
    assert(("ReserveNow"@)[1] == 'e');
    assert(("ReserveNow"@)[2] == 's');
    assert(("ReserveNow"@)[3] == 'e');
    assert(("ReserveNow"@)[4] == 'r');
    assert(("CancelReservation"@).len() == 17);
    assert(("CancelReservation"@)[0] == 'C');
    assert(("CancelReservation"@)[1] == 'a');
    assert(("CancelReservation"@)[2] == 'n');
    assert(("CancelReservation"@)[3] == 'c');
    assert(("CancelReservation"@)[4] == 'e');
    assert(("TriggerMessage"@).len() == 14);
    assert(("TriggerMessage"@)[0] == 'T');
    assert(("TriggerMessage"@)[1] == 'r');
    assert(("TriggerMessage"@)[2] == 'i');
    assert(("TriggerMessage"@)[3] == 'g');
    assert(("TriggerMessage"@)[4] == 'g');
    assert(("ChangeAvailability"@).len() == 18);
    assert(("ChangeAvailability"@)[0] == 'C');
    assert(("ChangeAvailability"@)[1] == 'h');
    assert(("ChangeAvailability"@)[2] == 'a');
    assert(("ChangeAvailability"@)[3] == 'n');
    assert(("ChangeAvailability"@)[4] == 'g');
    assert(("UnlockConnector"@).len() == 15);
    assert(("UnlockConnector"@)[0] == 'U');
    assert(("UnlockConnector"@)[1] == 'n');
    assert(("UnlockConnector"@)[2] == 'l');
    assert(("UnlockConnector"@)[3] == 'o');
    assert(("UnlockConnector"@)[4] == 'c');
    assert(("Reset"@).len() == 5);
    assert(("Reset"@)[0] == 'R');
    assert(("Reset"@)[1] == 'e');
    assert(("Reset"@)[2] == 's');
    assert(("Reset"@)[3] == 'e');
    assert(("Reset"@)[4] == 't');
    assert(("ClearCache"@).len() == 10);
    assert(("ClearCache"@)[0] == 'C');
    assert(("ClearCache"@)[1] == 'l');
    assert(("ClearCache"@)[2] == 'e');
    assert(("ClearCache"@)[3] == 'a');
    assert(("ClearCache"@)[4] == 'r');
    assert(("Get15118EVCertificate"@).len() == 21);
    assert(("Get15118EVCertificate"@)[0] == 'G');
    assert(("Get15118EVCertificate"@)[1] == 'e');
    assert(("Get15118EVCertificate"@)[2] == 't');
    assert(("Get15118EVCertificate"@)[3] == '1');
    assert(("Get15118EVCertificate"@)[4] == '5');
    assert(("GetCertificateStatus"@).len() == 20);
    assert(("GetCertificateStatus"@)[0] == 'G');
    assert(("GetCertificateStatus"@)[1] == 'e');
    assert(("GetCertificateStatus"@)[2] == 't');
    assert(("GetCertificateStatus"@)[3] == 'C');
    assert(("GetCertificateStatus"@)[4] == 'e');
    assert(("GetCRL"@).len() == 6);
    assert(("GetCRL"@)[0] == 'G');
    assert(("GetCRL"@)[1] == 'e');
    assert(("GetCRL"@)[2] == 't');
    assert(("GetCRL"@)[3] == 'C');
    assert(("GetCRL"@)[4] == 'R');
    assert(("GetLocalListVersion"@).len() == 19);
    assert(("GetLocalListVersion"@)[0] == 'G');
    assert(("GetLocalListVersion"@)[1] == 'e');
    assert(("GetLocalListVersion"@)[2] == 't');
    assert(("GetLocalListVersion"@)[3] == 'L');
    assert(("GetLocalListVersion"@)[4] == 'o');
    assert(("SendLocalList"@).len() == 13);
    assert(("SendLocalList"@)[0] == 'S');
    assert(("SendLocalList"@)[1] == 'e');
    assert(("SendLocalList"@)[2] == 'n');
    assert(("SendLocalList"@)[3] == 'd');
    assert(("SendLocalList"@)[4] == 'L');
    assert(("SetNetworkProfile"@).len() == 17);
    assert(("SetNetworkProfile"@)[0] == 'S');
    assert(("SetNetworkProfile"@)[1] == 'e');
    assert(("SetNetworkProfile"@)[2] == 't');
    assert(("SetNetworkProfile"@)[3] == 'N');
    assert(("SetNetworkProfile"@)[4] == 'e');
    assert(("DataTransfer"@).len() == 12);
    assert(("DataTransfer"@)[0] == 'D');
    assert(("DataTransfer"@)[1] == 'a');
    assert(("DataTransfer"@)[2] == 't');
    assert(("DataTransfer"@)[3] == 'a');
    assert(("DataTransfer"@)[4] == 'T');
}

impl OcppAction {
    /// The stable wire name of this action.
    pub fn wire_name(self) -> (r: &'static str)
        ensures
            r@ == action_name(self),
    {
        match self {
            OcppAction::Authorize => "Authorize",
            OcppAction::BootNotification => "BootNotification",
            OcppAction::Heartbeat => "Heartbeat",
            OcppAction::MeterValues => "MeterValues",
            OcppAction::StatusNotification => "StatusNotification",
            OcppAction::TransactionEvent => "TransactionEvent",
            OcppAction::GetBaseReport => "GetBaseReport",
            OcppAction::GetReport => "GetReport",
            OcppAction::GetVariables => "GetVariables",
            OcppAction::SetVariables => "SetVariables",
            OcppAction::UpdateFirmware => "UpdateFirmware",
            OcppAction::PublishFirmware => "PublishFirmware",
            OcppAction::UnpublishFirmware => "UnpublishFirmware",
            OcppAction::GetFirmwareStatusNotification => "GetFirmwareStatusNotification",
            OcppAction::FirmwareStatusNotification => "FirmwareStatusNotification",
            OcppAction::CertificateSigned => "CertificateSigned",
            OcppAction::DeleteCertificate => "DeleteCertificate",
            OcppAction::GetInstalledCertificateIds => "GetInstalledCertificateIds",
            OcppAction::InstallCertificate => "InstallCertificate",
            OcppAction::SecurityEventNotification => "SecurityEventNotification",
            OcppAction::SignCertificate => "SignCertificate",
            OcppAction::SetChargingProfile => "SetChargingProfile",
            OcppAction::ClearChargingProfile => "ClearChargingProfile",
            OcppAction::GetChargingProfiles => "GetChargingProfiles",
            OcppAction::GetCompositeSchedule => "GetCompositeSchedule",
            OcppAction::NotifyChargingLimit => "NotifyChargingLimit",
            OcppAction::ClearVariableMonitoring => "ClearVariableMonitoring",
            OcppAction::SetVariableMonitoring => "SetVariableMonitoring",
            OcppAction::ReserveNow => "ReserveNow",
            OcppAction::CancelReservation => "CancelReservation",
            OcppAction::TriggerMessage => "TriggerMessage",
            OcppAction::ChangeAvailability => "ChangeAvailability",
            OcppAction::UnlockConnector => "UnlockConnector",
            OcppAction::Reset => "Reset",
            OcppAction::ClearCache => "ClearCache",
            OcppAction::Get15118EVCertificate => "Get15118EVCertificate",
            OcppAction::GetCertificateStatus => "GetCertificateStatus",
            OcppAction::GetCRL => "GetCRL",
            OcppAction::GetLocalListVersion => "GetLocalListVersion",
            OcppAction::SendLocalList => "SendLocalList",
            OcppAction::SetNetworkProfile => "SetNetworkProfile",
            OcppAction::DataTransfer => "DataTransfer",
        }
    }

    /// Resolves a wire name against the catalog, exactly as
    /// [`action_of_name`] reads it.
    pub fn from_name(s: &str) -> (r: Option<OcppAction>)
        ensures
            r == action_of_name(s@),
    {
        if str_eq(s, "Authorize") { Some(OcppAction::Authorize) }
        else if str_eq(s, "BootNotification") { Some(OcppAction::BootNotification) }
        else if str_eq(s, "Heartbeat") { Some(OcppAction::Heartbeat) }
        else if str_eq(s, "MeterValues") { Some(OcppAction::MeterValues) }
        else if str_eq(s, "StatusNotification") { Some(OcppAction::StatusNotification) }
        else if str_eq(s, "TransactionEvent") { Some(OcppAction::TransactionEvent) }
        else if str_eq(s, "GetBaseReport") { Some(OcppAction::GetBaseReport) }
        else if str_eq(s, "GetReport") { Some(OcppAction::GetReport) }
        else if str_eq(s, "GetVariables") { Some(OcppAction::GetVariables) }
        else if str_eq(s, "SetVariables") { Some(OcppAction::SetVariables) }
        else if str_eq(s, "UpdateFirmware") { Some(OcppAction::UpdateFirmware) }
        else if str_eq(s, "PublishFirmware") { Some(OcppAction::PublishFirmware) }
        else if str_eq(s, "UnpublishFirmware") { Some(OcppAction::UnpublishFirmware) }
        else if str_eq(s, "GetFirmwareStatusNotification") { Some(OcppAction::GetFirmwareStatusNotification) }
        else if str_eq(s, "FirmwareStatusNotification") { Some(OcppAction::FirmwareStatusNotification) }
        else if str_eq(s, "CertificateSigned") { Some(OcppAction::CertificateSigned) }
        else if str_eq(s, "DeleteCertificate") { Some(OcppAction::DeleteCertificate) }
        else if str_eq(s, "GetInstalledCertificateIds") { Some(OcppAction::GetInstalledCertificateIds) }
        else if str_eq(s, "InstallCertificate") { Some(OcppAction::InstallCertificate) }
        else if str_eq(s, "SecurityEventNotification") { Some(OcppAction::SecurityEventNotification) }
        else if str_eq(s, "SignCertificate") { Some(OcppAction::SignCertificate) }
        else if str_eq(s, "SetChargingProfile") { Some(OcppAction::SetChargingProfile) }
        else if str_eq(s, "ClearChargingProfile") { Some(OcppAction::ClearChargingProfile) }
        else if str_eq(s, "GetChargingProfiles") { Some(OcppAction::GetChargingProfiles) }
        else if str_eq(s, "GetCompositeSchedule") { Some(OcppAction::GetCompositeSchedule) }
        else if str_eq(s, "NotifyChargingLimit") { Some(OcppAction::NotifyChargingLimit) }
        else if str_eq(s, "ClearVariableMonitoring") { Some(OcppAction::ClearVariableMonitoring) }
        else if str_eq(s, "SetVariableMonitoring") { Some(OcppAction::SetVariableMonitoring) }
        else if str_eq(s, "ReserveNow") { Some(OcppAction::ReserveNow) }
        else if str_eq(s, "CancelReservation") { Some(OcppAction::CancelReservation) }
        else if str_eq(s, "TriggerMessage") { Some(OcppAction::TriggerMessage) }
        else if str_eq(s, "ChangeAvailability") { Some(OcppAction::ChangeAvailability) }
        else if str_eq(s, "UnlockConnector") { Some(OcppAction::UnlockConnector) }
        else if str_eq(s, "Reset") { Some(OcppAction::Reset) }
        else if str_eq(s, "ClearCache") { Some(OcppAction::ClearCache) }
        else if str_eq(s, "Get15118EVCertificate") { Some(OcppAction::Get15118EVCertificate) }
        else if str_eq(s, "GetCertificateStatus") { Some(OcppAction::GetCertificateStatus) }
        else if str_eq(s, "GetCRL") { Some(OcppAction::GetCRL) }
        else if str_eq(s, "GetLocalListVersion") { Some(OcppAction::GetLocalListVersion) }
        else if str_eq(s, "SendLocalList") { Some(OcppAction::SendLocalList) }
        else if str_eq(s, "SetNetworkProfile") { Some(OcppAction::SetNetworkProfile) }
        else if str_eq(s, "DataTransfer") { Some(OcppAction::DataTransfer) }
        else { None }
    }
}

} // verus!
