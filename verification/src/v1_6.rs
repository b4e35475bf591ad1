//! The OCPP 1.6 action catalog: every action of the core profile with its
//! stable wire name, the direction it travels, and the proof that names
//! round-trip with the enumeration.

pub mod msg_generator;
pub mod msg_handler;

use vstd::prelude::*;
use crate::strutil::str_eq;

verus! {

/// An OCPP 1.6 action.
#[derive(Clone, Copy, Debug, PartialEq, Eq, Structural)]
pub enum OcppAction {
    // CP to CSMS
    BootNotification,
    Heartbeat,
    Authorize,
    StartTransaction,
    StopTransaction,
    StatusNotification,
    MeterValues,
    DiagnosticsStatusNotification,
    FirmwareStatusNotification,
    DataTransfer,
    // CSMS to CP
    RemoteStartTransaction,
    RemoteStopTransaction,
    Reset,
    ChangeAvailability,
    ChangeConfiguration,
    GetConfiguration,
    ClearCache,
    UpdateFirmware,
    GetDiagnostics,
    UnlockConnector,
    CancelReservation,
    ReserveNow,
    SetChargingProfile,
    ClearChargingProfile,
    GetCompositeSchedule,
    GetLocalListVersion,
    SendLocalList,
}

/// The stable wire name of an action.
pub open spec fn action_name(a: OcppAction) -> Seq<char> {
    match a {
        OcppAction::BootNotification => "BootNotification"@,
        OcppAction::Heartbeat => "Heartbeat"@,
        OcppAction::Authorize => "Authorize"@,
        OcppAction::StartTransaction => "StartTransaction"@,
        OcppAction::StopTransaction => "StopTransaction"@,
        OcppAction::StatusNotification => "StatusNotification"@,
        OcppAction::MeterValues => "MeterValues"@,
        OcppAction::DiagnosticsStatusNotification => "DiagnosticsStatusNotification"@,
        OcppAction::FirmwareStatusNotification => "FirmwareStatusNotification"@,
        OcppAction::DataTransfer => "DataTransfer"@,
        OcppAction::RemoteStartTransaction => "RemoteStartTransaction"@,
        OcppAction::RemoteStopTransaction => "RemoteStopTransaction"@,
        OcppAction::Reset => "Reset"@,
        OcppAction::ChangeAvailability => "ChangeAvailability"@,
        OcppAction::ChangeConfiguration => "ChangeConfiguration"@,
        OcppAction::GetConfiguration => "GetConfiguration"@,
        OcppAction::ClearCache => "ClearCache"@,
        OcppAction::UpdateFirmware => "UpdateFirmware"@,
        OcppAction::GetDiagnostics => "GetDiagnostics"@,
        OcppAction::UnlockConnector => "UnlockConnector"@,
        OcppAction::CancelReservation => "CancelReservation"@,
        OcppAction::ReserveNow => "ReserveNow"@,
        OcppAction::SetChargingProfile => "SetChargingProfile"@,
        OcppAction::ClearChargingProfile => "ClearChargingProfile"@,
        OcppAction::GetCompositeSchedule => "GetCompositeSchedule"@,
        OcppAction::GetLocalListVersion => "GetLocalListVersion"@,
        OcppAction::SendLocalList => "SendLocalList"@,
    }
}

/// The action a wire name stands for, if any.
pub open spec fn action_of_name(s: Seq<char>) -> Option<OcppAction> {
    if s == action_name(OcppAction::BootNotification) { Some(OcppAction::BootNotification) }
    else if s == action_name(OcppAction::Heartbeat) { Some(OcppAction::Heartbeat) }
    else if s == action_name(OcppAction::Authorize) { Some(OcppAction::Authorize) }
    else if s == action_name(OcppAction::StartTransaction) { Some(OcppAction::StartTransaction) }
    else if s == action_name(OcppAction::StopTransaction) { Some(OcppAction::StopTransaction) }
    else if s == action_name(OcppAction::StatusNotification) { Some(OcppAction::StatusNotification) }
    else if s == action_name(OcppAction::MeterValues) { Some(OcppAction::MeterValues) }
    else if s == action_name(OcppAction::DiagnosticsStatusNotification) { Some(OcppAction::DiagnosticsStatusNotification) }
    else if s == action_name(OcppAction::FirmwareStatusNotification) { Some(OcppAction::FirmwareStatusNotification) }
    else if s == action_name(OcppAction::DataTransfer) { Some(OcppAction::DataTransfer) }
    else if s == action_name(OcppAction::RemoteStartTransaction) { Some(OcppAction::RemoteStartTransaction) }
    else if s == action_name(OcppAction::RemoteStopTransaction) { Some(OcppAction::RemoteStopTransaction) }
    else if s == action_name(OcppAction::Reset) { Some(OcppAction::Reset) }
    else if s == action_name(OcppAction::ChangeAvailability) { Some(OcppAction::ChangeAvailability) }
    else if s == action_name(OcppAction::ChangeConfiguration) { Some(OcppAction::ChangeConfiguration) }
    else if s == action_name(OcppAction::GetConfiguration) { Some(OcppAction::GetConfiguration) }
    else if s == action_name(OcppAction::ClearCache) { Some(OcppAction::ClearCache) }
    else if s == action_name(OcppAction::UpdateFirmware) { Some(OcppAction::UpdateFirmware) }
    else if s == action_name(OcppAction::GetDiagnostics) { Some(OcppAction::GetDiagnostics) }
    else if s == action_name(OcppAction::UnlockConnector) { Some(OcppAction::UnlockConnector) }
    else if s == action_name(OcppAction::CancelReservation) { Some(OcppAction::CancelReservation) }
    else if s == action_name(OcppAction::ReserveNow) { Some(OcppAction::ReserveNow) }
    else if s == action_name(OcppAction::SetChargingProfile) { Some(OcppAction::SetChargingProfile) }
    else if s == action_name(OcppAction::ClearChargingProfile) { Some(OcppAction::ClearChargingProfile) }
    else if s == action_name(OcppAction::GetCompositeSchedule) { Some(OcppAction::GetCompositeSchedule) }
    else if s == action_name(OcppAction::GetLocalListVersion) { Some(OcppAction::GetLocalListVersion) }
    else if s == action_name(OcppAction::SendLocalList) { Some(OcppAction::SendLocalList) }
    else { None }
}

/// Wire names identify actions: reading back an action's own name gives
/// that action.
pub proof fn lemma_action_name_round_trip(a: OcppAction)
    ensures
        action_of_name(action_name(a)) == Some(a),
{
    assert forall|b: OcppAction| b != a implies action_name(b) != action_name(a) by {
        lemma_action_names_distinct(b, a);
    }
}

/// Distinct actions have distinct wire names.
pub proof fn lemma_action_names_distinct(a: OcppAction, b: OcppAction)
    requires
        a != b,
    ensures
        action_name(a) != action_name(b),
{

    reveal_strlit("BootNotification");
    reveal_strlit("Heartbeat");
    reveal_strlit("Authorize");
    reveal_strlit("StartTransaction");
    reveal_strlit("StopTransaction");
    reveal_strlit("StatusNotification");
    reveal_strlit("MeterValues");
    reveal_strlit("DiagnosticsStatusNotification");
    reveal_strlit("FirmwareStatusNotification");
    reveal_strlit("DataTransfer");
    reveal_strlit("RemoteStartTransaction");
    reveal_strlit("RemoteStopTransaction");
    reveal_strlit("Reset");
    reveal_strlit("ChangeAvailability");
    reveal_strlit("ChangeConfiguration");
    reveal_strlit("GetConfiguration");
    reveal_strlit("ClearCache");
    reveal_strlit("UpdateFirmware");
    reveal_strlit("GetDiagnostics");
    reveal_strlit("UnlockConnector");
    reveal_strlit("CancelReservation");
    reveal_strlit("ReserveNow");
    reveal_strlit("SetChargingProfile");
    reveal_strlit("ClearChargingProfile");
    reveal_strlit("GetCompositeSchedule");
    reveal_strlit("GetLocalListVersion");
    reveal_strlit("SendLocalList");
    // Lengths tell almost every pair of names apart.
    assert(("BootNotification"@).len() == 16);
    assert(("Heartbeat"@).len() == 9);
    assert(("Authorize"@).len() == 9);
    assert(("StartTransaction"@).len() == 16);
    assert(("StopTransaction"@).len() == 15);
    assert(("StatusNotification"@).len() == 18);
    assert(("MeterValues"@).len() == 11);
    assert(("DiagnosticsStatusNotification"@).len() == 29);
    assert(("FirmwareStatusNotification"@).len() == 26);
    assert(("DataTransfer"@).len() == 12);
    assert(("RemoteStartTransaction"@).len() == 22);
    assert(("RemoteStopTransaction"@).len() == 21);
    assert(("Reset"@).len() == 5);
    assert(("ChangeAvailability"@).len() == 18);
    assert(("ChangeConfiguration"@).len() == 19);
    assert(("GetConfiguration"@).len() == 16);
    assert(("ClearCache"@).len() == 10);
    assert(("UpdateFirmware"@).len() == 14);
    assert(("GetDiagnostics"@).len() == 14);
    assert(("UnlockConnector"@).len() == 15);
    assert(("CancelReservation"@).len() == 17);
    assert(("ReserveNow"@).len() == 10);
    assert(("SetChargingProfile"@).len() == 18);
    assert(("ClearChargingProfile"@).len() == 20);
    assert(("GetCompositeSchedule"@).len() == 20);
    assert(("GetLocalListVersion"@).len() == 19);
    assert(("SendLocalList"@).len() == 13);
    // The first two characters settle the pairs of equal length.
    assert(("BootNotification"@)[0] == 'B');
    assert(("Heartbeat"@)[0] == 'H');
    assert(("Authorize"@)[0] == 'A');
    assert(("StartTransaction"@)[0] == 'S');
    assert(("StopTransaction"@)[0] == 'S');
    assert(("StatusNotification"@)[0] == 'S');
    assert(("StatusNotification"@)[1] == 't');
    assert(("ChangeAvailability"@)[0] == 'C');
    assert(("ChangeConfiguration"@)[0] == 'C');
    assert(("GetConfiguration"@)[0] == 'G');
    assert(("ClearCache"@)[0] == 'C');
    assert(("UpdateFirmware"@)[0] == 'U');
    assert(("GetDiagnostics"@)[0] == 'G');
    assert(("UnlockConnector"@)[0] == 'U');
    assert(("ReserveNow"@)[0] == 'R');
    assert(("SetChargingProfile"@)[0] == 'S');
    assert(("SetChargingProfile"@)[1] == 'e');
    assert(("ClearChargingProfile"@)[0] == 'C');
    assert(("GetCompositeSchedule"@)[0] == 'G');
    assert(("GetLocalListVersion"@)[0] == 'G');
}


impl OcppAction {
    /// The stable wire name of this action.
    pub fn wire_name(self) -> (r: &'static str)
        ensures
            r@ == action_name(self),
    {
        match self {
            OcppAction::BootNotification => "BootNotification",
            OcppAction::Heartbeat => "Heartbeat",
            OcppAction::Authorize => "Authorize",
            OcppAction::StartTransaction => "StartTransaction",
            OcppAction::StopTransaction => "StopTransaction",
            OcppAction::StatusNotification => "StatusNotification",
            OcppAction::MeterValues => "MeterValues",
            OcppAction::DiagnosticsStatusNotification => "DiagnosticsStatusNotification",
            OcppAction::FirmwareStatusNotification => "FirmwareStatusNotification",
            OcppAction::DataTransfer => "DataTransfer",
            OcppAction::RemoteStartTransaction => "RemoteStartTransaction",
            OcppAction::RemoteStopTransaction => "RemoteStopTransaction",
            OcppAction::Reset => "Reset",
            OcppAction::ChangeAvailability => "ChangeAvailability",
            OcppAction::ChangeConfiguration => "ChangeConfiguration",
            OcppAction::GetConfiguration => "GetConfiguration",
            OcppAction::ClearCache => "ClearCache",
            OcppAction::UpdateFirmware => "UpdateFirmware",
            OcppAction::GetDiagnostics => "GetDiagnostics",
            OcppAction::UnlockConnector => "UnlockConnector",
            OcppAction::CancelReservation => "CancelReservation",
            OcppAction::ReserveNow => "ReserveNow",
            OcppAction::SetChargingProfile => "SetChargingProfile",
            OcppAction::ClearChargingProfile => "ClearChargingProfile",
            OcppAction::GetCompositeSchedule => "GetCompositeSchedule",
            OcppAction::GetLocalListVersion => "GetLocalListVersion",
            OcppAction::SendLocalList => "SendLocalList",
        }
    }

    /// Resolves a wire name against the catalog, exactly as
    /// [`action_of_name`] reads it.
    pub fn from_name(s: &str) -> (r: Option<OcppAction>)
        ensures
            r == action_of_name(s@),
    {
        if str_eq(s, "BootNotification") { Some(OcppAction::BootNotification) }
        else if str_eq(s, "Heartbeat") { Some(OcppAction::Heartbeat) }
        else if str_eq(s, "Authorize") { Some(OcppAction::Authorize) }
        else if str_eq(s, "StartTransaction") { Some(OcppAction::StartTransaction) }
        else if str_eq(s, "StopTransaction") { Some(OcppAction::StopTransaction) }
        else if str_eq(s, "StatusNotification") { Some(OcppAction::StatusNotification) }
        else if str_eq(s, "MeterValues") { Some(OcppAction::MeterValues) }
        else if str_eq(s, "DiagnosticsStatusNotification") { Some(OcppAction::DiagnosticsStatusNotification) }
        else if str_eq(s, "FirmwareStatusNotification") { Some(OcppAction::FirmwareStatusNotification) }
        else if str_eq(s, "DataTransfer") { Some(OcppAction::DataTransfer) }
        else if str_eq(s, "RemoteStartTransaction") { Some(OcppAction::RemoteStartTransaction) }
        else if str_eq(s, "RemoteStopTransaction") { Some(OcppAction::RemoteStopTransaction) }
        else if str_eq(s, "Reset") { Some(OcppAction::Reset) }
        else if str_eq(s, "ChangeAvailability") { Some(OcppAction::ChangeAvailability) }
        else if str_eq(s, "ChangeConfiguration") { Some(OcppAction::ChangeConfiguration) }
        else if str_eq(s, "GetConfiguration") { Some(OcppAction::GetConfiguration) }
        else if str_eq(s, "ClearCache") { Some(OcppAction::ClearCache) }
        else if str_eq(s, "UpdateFirmware") { Some(OcppAction::UpdateFirmware) }
        else if str_eq(s, "GetDiagnostics") { Some(OcppAction::GetDiagnostics) }
        else if str_eq(s, "UnlockConnector") { Some(OcppAction::UnlockConnector) }
        else if str_eq(s, "CancelReservation") { Some(OcppAction::CancelReservation) }
        else if str_eq(s, "ReserveNow") { Some(OcppAction::ReserveNow) }
        else if str_eq(s, "SetChargingProfile") { Some(OcppAction::SetChargingProfile) }
        else if str_eq(s, "ClearChargingProfile") { Some(OcppAction::ClearChargingProfile) }
        else if str_eq(s, "GetCompositeSchedule") { Some(OcppAction::GetCompositeSchedule) }
        else if str_eq(s, "GetLocalListVersion") { Some(OcppAction::GetLocalListVersion) }
        else if str_eq(s, "SendLocalList") { Some(OcppAction::SendLocalList) }
        else { None }
    }

    /// Whether the charge point is the side that issues this action.
    pub open spec fn spec_cp_originated(self) -> bool {
        match self {
            OcppAction::BootNotification => true,
            OcppAction::Heartbeat => true,
            OcppAction::Authorize => true,
            OcppAction::StartTransaction => true,
            OcppAction::StopTransaction => true,
            OcppAction::StatusNotification => true,
            OcppAction::MeterValues => true,
            OcppAction::DiagnosticsStatusNotification => true,
            OcppAction::FirmwareStatusNotification => true,
            OcppAction::DataTransfer => true,
            _ => false,
        }
    }

    /// Whether the charge point is the side that issues this action.
    pub fn is_cp_originated(self) -> (r: bool)
        ensures
            r == self.spec_cp_originated(),
    {
        match self {
            OcppAction::BootNotification => true,
            OcppAction::Heartbeat => true,
            OcppAction::Authorize => true,
            OcppAction::StartTransaction => true,
            OcppAction::StopTransaction => true,
            OcppAction::StatusNotification => true,
            OcppAction::MeterValues => true,
            OcppAction::DiagnosticsStatusNotification => true,
            OcppAction::FirmwareStatusNotification => true,
            OcppAction::DataTransfer => true,
            _ => false,
        }
    }
}

} // verus!
