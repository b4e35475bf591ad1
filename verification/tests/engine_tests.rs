use ocpp_cp_simulator::codec::RawFrame;
use ocpp_cp_simulator::config::{ChargePointConfig, GeneralConfig};
use ocpp_cp_simulator::cp::SessionEvent;
use ocpp_cp_simulator::cp::dynamic::ChargePointDynamic;
use ocpp_cp_simulator::cp::idle::ChargePointIdle;
use ocpp_cp_simulator::json::{Json, obj_get};
use ocpp_cp_simulator::version::OcppVersion;

fn general() -> GeneralConfig {
    GeneralConfig {
        debug_mode: false,
        server_url: "ws://localhost:3000".to_string(),
        ocpp_version: OcppVersion::V1_6,
    }
}

fn cp_config() -> ChargePointConfig {
    ChargePointConfig {
        id: "CP1".to_string(),
        auth_header: String::new(),
        boot_delay_interval: 0,
        heartbeat_interval: 60,
        status_interval: 30,
        start_tx_after: 1,
        stop_tx_after: 2,
        id_tags: vec!["T1".to_string()],
    }
}

fn action_of(f: &RawFrame) -> String {
    match f {
        RawFrame::Call { action, .. } => action.clone(),
        RawFrame::CallResult { .. } => "<CallResult>".to_string(),
        RawFrame::CallError { .. } => "<CallError>".to_string(),
    }
}

fn msg_id_of(f: &RawFrame) -> String {
    match f {
        RawFrame::Call { msg_id, .. } => msg_id.clone(),
        _ => panic!("expected a Call"),
    }
}

fn status_of(f: &RawFrame) -> String {
    match f {
        RawFrame::Call { payload, .. } => match obj_get(payload, "status") {
            Some(Json::Str(s)) => s.clone(),
            _ => panic!("expected a status field"),
        },
        _ => panic!("expected a Call"),
    }
}

/// The dynamic happy path: boot, then the full transaction cycle, with the
/// CSMS answering `StartTransaction`, and the cycle repeating.
#[test]
fn dynamic_happy_path_sequence() {
    let mut cp = ChargePointDynamic::new(general(), cp_config());
    let boot = cp.boot_message("T0");
    assert_eq!(action_of(&boot), "BootNotification");

    let out = cp.step(SessionEvent::StartTxDeadline, "T1");
    assert_eq!(out.messages.len(), 2);
    assert_eq!(action_of(&out.messages[0]), "StartTransaction");
    assert_eq!(action_of(&out.messages[1]), "StatusNotification");
    assert_eq!(status_of(&out.messages[1]), "Preparing");
    assert!(out.await_tx_assign);
    let start_id = msg_id_of(&out.messages[0]);

    // the CSMS assigns transaction id 7
    let reply = format!("[3,\"{start_id}\",{{\"transactionId\":7,\"idTagInfo\":{{\"status\":\"Accepted\"}}}}]");
    let out = cp.step(SessionEvent::Inbound(reply), "T2");
    assert_eq!(out.messages.len(), 1);
    assert_eq!(action_of(&out.messages[0]), "StatusNotification");
    assert_eq!(status_of(&out.messages[0]), "Charging");
    assert!(out.arm_stop_timer);

    // meter samples flow while charging
    let out = cp.step(SessionEvent::MeterTick, "T3");
    assert_eq!(out.messages.len(), 1);
    assert_eq!(action_of(&out.messages[0]), "MeterValues");
    match &out.messages[0] {
        RawFrame::Call { payload, .. } => {
            assert_eq!(obj_get(payload, "transactionId"), Some(&Json::Int(7)));
        }
        _ => panic!("expected a Call"),
    }

    // heartbeat keeps ticking through it all
    let out = cp.step(SessionEvent::HeartbeatTick, "T4");
    assert_eq!(action_of(&out.messages[0]), "Heartbeat");

    let out = cp.step(SessionEvent::StopTxDeadline, "T5");
    assert_eq!(out.messages.len(), 2);
    assert_eq!(action_of(&out.messages[0]), "StopTransaction");
    assert_eq!(action_of(&out.messages[1]), "StatusNotification");
    assert_eq!(status_of(&out.messages[1]), "Available");
    assert!(out.arm_start_timer);

    // and the cycle repeats
    let out = cp.step(SessionEvent::StartTxDeadline, "T6");
    assert_eq!(action_of(&out.messages[0]), "StartTransaction");
}

/// Without any meter ticks the cycle still closes: MeterValues are optional
/// in the lifecycle.
#[test]
fn dynamic_cycle_without_meter_values() {
    let mut cp = ChargePointDynamic::new(general(), cp_config());
    let _ = cp.step(SessionEvent::StartTxDeadline, "T1");
    let _ = cp.step(SessionEvent::StartTxTimeout, "T2");
    let out = cp.step(SessionEvent::StopTxDeadline, "T3");
    assert_eq!(action_of(&out.messages[0]), "StopTransaction");
}

/// No MeterValues frame is produced before a transaction id exists.
#[test]
fn no_meter_values_before_transaction() {
    let mut cp = ChargePointDynamic::new(general(), cp_config());
    let out = cp.step(SessionEvent::MeterTick, "T1");
    assert!(out.messages.is_empty());
    let _ = cp.step(SessionEvent::StartTxDeadline, "T2");
    // still starting: the tick is ignored
    let out = cp.step(SessionEvent::MeterTick, "T3");
    assert!(out.messages.is_empty());
}

/// The CSMS never answers `StartTransaction`: after the five-second
/// timeout the charge proceeds with the placeholder transaction id 1.
#[test]
fn start_transaction_timeout_uses_placeholder_id() {
    let mut cp = ChargePointDynamic::new(general(), cp_config());
    let _ = cp.step(SessionEvent::StartTxDeadline, "T1");
    let out = cp.step(SessionEvent::StartTxTimeout, "T2");
    assert_eq!(out.messages.len(), 1);
    assert_eq!(status_of(&out.messages[0]), "Charging");
    assert!(out.degraded);
    let out = cp.step(SessionEvent::MeterTick, "T3");
    match &out.messages[0] {
        RawFrame::Call { payload, .. } => {
            assert_eq!(obj_get(payload, "transactionId"), Some(&Json::Int(1)));
        }
        _ => panic!("expected a Call"),
    }
}

/// An unknown action from the CSMS gets the `NotImplemented` CallError
/// with the original message id.
#[test]
fn unknown_action_gets_not_implemented() {
    let mut cp = ChargePointDynamic::new(general(), cp_config());
    let out = cp.step(
        SessionEvent::Inbound("[2,\"x2\",\"NonExistent\",{}]".to_string()),
        "T1",
    );
    assert_eq!(out.messages.len(), 1);
    let text = out.messages.into_iter().next().unwrap().encode();
    assert_eq!(text, "[4,\"x2\",\"NotImplemented\",\"Unknown action\",{}]");
}

/// A known CSMS-originated Call is acknowledged under its message id.
#[test]
fn known_call_is_acknowledged() {
    let mut cp = ChargePointDynamic::new(general(), cp_config());
    let out = cp.step(
        SessionEvent::Inbound("[2,\"r1\",\"Reset\",{\"type\":\"Soft\"}]".to_string()),
        "T1",
    );
    let text = out.messages.into_iter().next().unwrap().encode();
    assert_eq!(text, "[3,\"r1\",{\"status\":\"Accepted\"}]");

    let out = cp.step(
        SessionEvent::Inbound("[2,\"g1\",\"GetConfiguration\",{}]".to_string()),
        "T2",
    );
    let text = out.messages.into_iter().next().unwrap().encode();
    assert_eq!(text, "[3,\"g1\",{\"configurationKey\":[]}]");
}

/// Malformed inbound text is dropped and the session continues.
#[test]
fn malformed_inbound_is_dropped() {
    let mut cp = ChargePointDynamic::new(general(), cp_config());
    let out = cp.step(SessionEvent::Inbound("not json at all".to_string()), "T1");
    assert!(out.messages.is_empty());
    assert!(!out.terminate);
    let out = cp.step(SessionEvent::HeartbeatTick, "T2");
    assert_eq!(out.messages.len(), 1);
}

/// Close and cancel both end the session.
#[test]
fn close_and_cancel_terminate() {
    let mut cp = ChargePointDynamic::new(general(), cp_config());
    assert!(cp.step(SessionEvent::Closed, "T1").terminate);
    let mut cp = ChargePointDynamic::new(general(), cp_config());
    assert!(cp.step(SessionEvent::Cancel, "T1").terminate);
}

/// The idle engine acknowledges a `RemoteStartTransaction` and drives the
/// whole transaction from it.
#[test]
fn idle_remote_start_drives_a_transaction() {
    let mut cp = ChargePointIdle::new(general(), cp_config());

    // heartbeats while watching
    let out = cp.step(SessionEvent::HeartbeatTick, "T0");
    assert_eq!(action_of(&out.messages[0]), "Heartbeat");

    let out = cp.step(
        SessionEvent::Inbound(
            "[2,\"x1\",\"RemoteStartTransaction\",{\"idTag\":\"T1\",\"connectorId\":1}]"
                .to_string(),
        ),
        "T1",
    );
    assert_eq!(out.messages.len(), 3);
    assert_eq!(
        action_of(&out.messages[0]),
        "<CallResult>"
    );
    assert_eq!(action_of(&out.messages[1]), "StartTransaction");
    assert_eq!(action_of(&out.messages[2]), "StatusNotification");
    assert_eq!(status_of(&out.messages[2]), "Preparing");
    let start_id = msg_id_of(&out.messages[1]);
    let ack = match &out.messages[0] {
        RawFrame::CallResult { msg_id, payload } => {
            RawFrame::CallResult { msg_id: msg_id.clone(), payload: clone_json(payload) }
        }
        _ => panic!("expected CallResult"),
    };
    assert_eq!(ack.encode(), "[3,\"x1\",{\"status\":\"Accepted\"}]");

    // the CSMS answers StartTransaction: the hardware wait begins
    let reply = format!("[3,\"{start_id}\",{{\"transactionId\":9}}]");
    let out = cp.step(SessionEvent::Inbound(reply), "T2");
    assert!(out.messages.is_empty());
    assert!(out.arm_hw_timer);

    // hardware ready: charging begins
    let out = cp.step(SessionEvent::HwReady, "T3");
    assert_eq!(out.messages.len(), 1);
    assert_eq!(status_of(&out.messages[0]), "Charging");
    assert!(out.arm_hw_timer);

    // ten meter reports, then the stop pair
    for k in 0..9 {
        let out = cp.step(SessionEvent::HwReady, "T4");
        assert_eq!(out.messages.len(), 1, "report {k}");
        assert_eq!(action_of(&out.messages[0]), "MeterValues");
        assert!(out.arm_hw_timer);
    }
    let out = cp.step(SessionEvent::HwReady, "T5");
    assert_eq!(out.messages.len(), 3);
    assert_eq!(action_of(&out.messages[0]), "MeterValues");
    assert_eq!(action_of(&out.messages[1]), "StopTransaction");
    assert_eq!(status_of(&out.messages[2]), "Available");
    assert!(!out.arm_hw_timer);

    // back to watching: another remote start works again
    let out = cp.step(
        SessionEvent::Inbound(
            "[2,\"x9\",\"RemoteStartTransaction\",{\"idTag\":\"T1\",\"connectorId\":1}]"
                .to_string(),
        ),
        "T6",
    );
    assert_eq!(out.messages.len(), 3);
}

fn clone_json(j: &Json) -> Json {
    match j {
        Json::Null => Json::Null,
        Json::Bool(b) => Json::Bool(*b),
        Json::Int(i) => Json::Int(*i),
        Json::NumRaw(s) => Json::NumRaw(s.clone()),
        Json::Str(s) => Json::Str(s.clone()),
        Json::Arr(items) => Json::Arr(items.iter().map(clone_json).collect()),
        Json::Obj(members) => {
            Json::Obj(members.iter().map(|(k, v)| (k.clone(), clone_json(v))).collect())
        }
    }
}
