//! The per-charge-point session machinery: the connection target, the
//! transaction-lifecycle vocabulary shared by both behavior modes, and the
//! two session engines.

pub mod dynamic;
pub mod idle;

use vstd::prelude::*;
use crate::codec::{RawFrame, RawFrameV};
use crate::config::{ChargePointConfig, GeneralConfig};
use crate::json::JsonV;
use crate::types::CommonConnectorStatusType;
use crate::v1_6::{OcppAction, action_name};

verus! {

/// Builds the WebSocket target for a charge point: the server URL joined
/// with the charge point id by a slash.
pub struct ChargePointClient;

impl ChargePointClient {
    /// The URI text a session connects to.
    pub fn request_target(general_config: &GeneralConfig, config: &ChargePointConfig) -> (r:
        String)
        ensures
            r@ == general_config.server_url@ + "/"@ + config.id@,
    {
        let mut r = general_config.server_url.clone();
        r.append("/");
        r.append(config.id.as_str());
        r
    }
}

/// A transaction-related outbound action, as the lifecycle law counts them.
pub enum TxAct {
    Start,
    Status(CommonConnectorStatusType),
    Meter,
    Stop,
}

/// One step of the lifecycle automaton.  The accepted language is the
/// cycle `StartTransaction`, `StatusNotification(Preparing)`,
/// `StatusNotification(Charging)`, any number of `MeterValues`,
/// `StopTransaction`, `StatusNotification(Available)`, repeated; `None`
/// marks a word that left the language.
pub open spec fn lifecycle_dfa_step(s: int, a: TxAct) -> Option<int> {
    match a {
        TxAct::Start => if s == 0 {
            Some(1)
        } else {
            None
        },
        TxAct::Status(CommonConnectorStatusType::Preparing) => if s == 1 {
            Some(2)
        } else {
            None
        },
        TxAct::Status(CommonConnectorStatusType::Charging) => if s == 2 {
            Some(3)
        } else {
            None
        },
        TxAct::Meter => if s == 3 {
            Some(3)
        } else {
            None
        },
        TxAct::Stop => if s == 3 {
            Some(4)
        } else {
            None
        },
        TxAct::Status(CommonConnectorStatusType::Available) => if s == 4 {
            Some(0)
        } else {
            None
        },
        _ => None,
    }
}

/// Runs the lifecycle automaton over a whole log, from state `0`.
pub open spec fn lifecycle_dfa(log: Seq<TxAct>) -> Option<int>
    decreases log.len(),
{
    if log.len() == 0 {
        Some(0)
    } else {
        match lifecycle_dfa(log.drop_last()) {
            Some(s) => lifecycle_dfa_step(s, log.last()),
            None => None,
        }
    }
}

/// A log the automaton accepts in some state: a whole number of complete
/// transaction cycles followed by an unfinished prefix of the next one.
pub open spec fn lifecycle_ok(log: Seq<TxAct>) -> bool {
    lifecycle_dfa(log) is Some
}

/// Whether a frame is a Call for this action.
pub open spec fn is_call_for(f: RawFrameV, a: OcppAction) -> bool {
    f matches RawFrameV::Call { action, .. } && action == action_name(a)
}

/// Whether a frame is a Call for this action with exactly this payload.
pub open spec fn is_call_with(f: RawFrameV, a: OcppAction, payload: JsonV) -> bool {
    f matches RawFrameV::Call { action, payload: p, .. } && action == action_name(a) && p
        == payload
}

/// What the session engine asks of its runner after a step: the frames to
/// send in order, whether to arm the transaction timers or the
/// five-second wait for the transaction id, whether the engine fell back
/// to the placeholder transaction id, and whether the session is over.
pub struct StepOutput {
    pub messages: Vec<RawFrame>,
    pub arm_start_timer: bool,
    pub arm_stop_timer: bool,
    pub await_tx_assign: bool,
    pub arm_hw_timer: bool,
    pub degraded: bool,
    pub terminate: bool,
}

impl StepOutput {
    /// An output that sends nothing and changes no timers.
    pub fn quiet() -> (r: StepOutput)
        ensures
            r.messages@.len() == 0,
            !r.arm_start_timer,
            !r.arm_stop_timer,
            !r.await_tx_assign,
            !r.arm_hw_timer,
            !r.degraded,
            !r.terminate,
    {
        StepOutput {
            messages: Vec::new(),
            arm_start_timer: false,
            arm_stop_timer: false,
            await_tx_assign: false,
            arm_hw_timer: false,
            degraded: false,
            terminate: false,
        }
    }
}

/// An event a session runner feeds its engine.
pub enum SessionEvent {
    /// The start-transaction deadline matured.
    StartTxDeadline,
    /// The stop-transaction deadline matured.
    StopTxDeadline,
    /// The meter sampling tick.
    MeterTick,
    /// The heartbeat tick.
    HeartbeatTick,
    /// The five-second wait for the transaction id ran out.
    StartTxTimeout,
    /// The hardware-simulation wait finished.
    HwReady,
    /// A text message arrived from the CSMS.
    Inbound(String),
    /// The CSMS closed the connection.
    Closed,
    /// The process is being interrupted.
    Cancel,
}

} // verus!
