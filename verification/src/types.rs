//! Version-neutral protocol types: the connector status vocabulary shared by
//! all OCPP versions, and the common action tags the session engine acts on.

use vstd::prelude::*;

verus! {

/// A connector status, independent of protocol version.  Each version
/// lowers it to its own wire enumeration.
#[derive(Clone, Copy, Debug, PartialEq, Eq, Structural)]
pub enum CommonConnectorStatusType {
    Available,
    Preparing,
    Charging,
    SuspendedEVSE,
    SuspendedEV,
    Finishing,
    Reserved,
    Unavailable,
    Faulted,
}

impl CommonConnectorStatusType {
    /// The OCPP 1.6 `ChargePointStatus` wire string: each status keeps its
    /// own name.
    pub open spec fn spec_v16_name(self) -> Seq<char> {
        match self {
            CommonConnectorStatusType::Available => "Available"@,
            CommonConnectorStatusType::Preparing => "Preparing"@,
            CommonConnectorStatusType::Charging => "Charging"@,
            CommonConnectorStatusType::SuspendedEVSE => "SuspendedEVSE"@,
            CommonConnectorStatusType::SuspendedEV => "SuspendedEV"@,
            CommonConnectorStatusType::Finishing => "Finishing"@,
            CommonConnectorStatusType::Reserved => "Reserved"@,
            CommonConnectorStatusType::Unavailable => "Unavailable"@,
            CommonConnectorStatusType::Faulted => "Faulted"@,
        }
    }

    /// The OCPP 1.6 `ChargePointStatus` wire string.
    pub fn v16_name(self) -> (r: &'static str)
        ensures
            r@ == self.spec_v16_name(),
    {
        match self {
            CommonConnectorStatusType::Available => "Available",
            CommonConnectorStatusType::Preparing => "Preparing",
            CommonConnectorStatusType::Charging => "Charging",
            CommonConnectorStatusType::SuspendedEVSE => "SuspendedEVSE",
            CommonConnectorStatusType::SuspendedEV => "SuspendedEV",
            CommonConnectorStatusType::Finishing => "Finishing",
            CommonConnectorStatusType::Reserved => "Reserved",
            CommonConnectorStatusType::Unavailable => "Unavailable",
            CommonConnectorStatusType::Faulted => "Faulted",
        }
    }

    /// The OCPP 2.0.1 / 2.1 `ConnectorStatusEnumType` wire string: the
    /// occupancy states other than `Available` collapse to `Occupied`.
    pub open spec fn spec_v2_name(self) -> Seq<char> {
        match self {
            CommonConnectorStatusType::Available => "Available"@,
            CommonConnectorStatusType::Preparing => "Occupied"@,
            CommonConnectorStatusType::Charging => "Occupied"@,
            CommonConnectorStatusType::SuspendedEVSE => "Occupied"@,
            CommonConnectorStatusType::SuspendedEV => "Occupied"@,
            CommonConnectorStatusType::Finishing => "Occupied"@,
            CommonConnectorStatusType::Reserved => "Reserved"@,
            CommonConnectorStatusType::Unavailable => "Unavailable"@,
            CommonConnectorStatusType::Faulted => "Faulted"@,
        }
    }

    /// The OCPP 2.0.1 / 2.1 `ConnectorStatusEnumType` wire string.
    pub fn v2_name(self) -> (r: &'static str)
        ensures
            r@ == self.spec_v2_name(),
    {
        match self {
            CommonConnectorStatusType::Available => "Available",
            CommonConnectorStatusType::Preparing => "Occupied",
            CommonConnectorStatusType::Charging => "Occupied",
            CommonConnectorStatusType::SuspendedEVSE => "Occupied",
            CommonConnectorStatusType::SuspendedEV => "Occupied",
            CommonConnectorStatusType::Finishing => "Occupied",
            CommonConnectorStatusType::Reserved => "Reserved",
            CommonConnectorStatusType::Unavailable => "Unavailable",
            CommonConnectorStatusType::Faulted => "Faulted",
        }
    }
}

/// The version-neutral tag a handler returns so the session engine can
/// advance its state machine.
#[derive(Clone, Copy, Debug, PartialEq, Eq, Structural)]
pub enum CommonOcppAction {
    BootNotification,
    Heartbeat,
    Authorize,
    StartTransaction,
    StopTransaction,
    StatusNotification,
    MeterValues,
    DiagnosticsStatusNotification,
    FirmwareStatusNotification,
    DataTransfer,
}

} // verus!
