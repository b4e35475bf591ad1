use ocpp_cp_simulator::codec::FrameError;
use ocpp_cp_simulator::correlation::SharedState;
use ocpp_cp_simulator::json::Json;
use ocpp_cp_simulator::types::CommonOcppAction;
use ocpp_cp_simulator::v1_6::OcppAction;
use ocpp_cp_simulator::v1_6::msg_handler::{V16MessageHandler, OcppMessageFrame};
use ocpp_cp_simulator::v2_0_1::OcppAction as A2;
use ocpp_cp_simulator::v2_0_1::msg_handler::{V201MessageHandler, V201MessageFrame};
use ocpp_cp_simulator::v2_1::V21MessageHandler;

#[test]
fn parses_calls_against_the_catalog() {
    let handler = V16MessageHandler::new();
    match handler.parse_ocpp_message("[2,\"m1\",\"RemoteStartTransaction\",{\"idTag\":\"T1\"}]") {
        Ok(OcppMessageFrame::Call { msg_id, action, .. }) => {
            assert_eq!(msg_id, "m1");
            assert_eq!(action, OcppAction::RemoteStartTransaction);
        }
        other => panic!("unexpected: {other:?}"),
    }
}

#[test]
fn parses_call_results_and_errors() {
    let handler = V16MessageHandler::new();
    match handler.parse_ocpp_message("[3,\"m2\",{\"transactionId\":3}]") {
        Ok(OcppMessageFrame::CallResult { msg_id, .. }) => assert_eq!(msg_id, "m2"),
        other => panic!("unexpected: {other:?}"),
    }
    match handler.parse_ocpp_message("[4,\"m3\",\"GenericError\",\"boom\",{}]") {
        Ok(OcppMessageFrame::CallError { msg_id, error_code, description, .. }) => {
            assert_eq!(msg_id, "m3");
            assert_eq!(error_code, "GenericError");
            assert_eq!(description, "boom");
        }
        other => panic!("unexpected: {other:?}"),
    }
}

#[test]
fn reports_unknown_actions_with_their_message_id() {
    let handler = V16MessageHandler::new();
    match handler.parse_ocpp_message("[2,\"x7\",\"NoSuchAction\",{}]") {
        Err(FrameError::UnknownAction { msg_id }) => assert_eq!(msg_id, "x7"),
        other => panic!("unexpected: {other:?}"),
    }
    assert_eq!(
        handler.parse_ocpp_message("{\"not\":\"a frame\"}"),
        Err(FrameError::MalformedFrame)
    );
    assert_eq!(handler.parse_ocpp_message("]["), Err(FrameError::MalformedFrame));
}

#[test]
fn call_result_settles_the_correlation_and_stores_the_transaction_id() {
    let handler = V16MessageHandler::new();
    let mut shared: SharedState<OcppAction> = SharedState::new();
    let msg_id = shared.register(OcppAction::StartTransaction);
    let payload = Json::Obj(vec![("transactionId".to_string(), Json::Int(321))]);
    let tag = handler.handle_call_result(&mut shared, &msg_id, &payload);
    assert_eq!(tag, Some(CommonOcppAction::StartTransaction));
    assert_eq!(shared.get_transaction_id(), Some(321));
    // the entry is settled: a second reply under the same id finds nothing
    assert_eq!(handler.handle_call_result(&mut shared, &msg_id, &payload), None);
}

#[test]
fn call_result_for_other_actions_leaves_the_transaction_id_alone() {
    let handler = V16MessageHandler::new();
    let mut shared: SharedState<OcppAction> = SharedState::new();
    let msg_id = shared.register(OcppAction::Heartbeat);
    let payload = Json::Obj(vec![("transactionId".to_string(), Json::Int(5))]);
    assert_eq!(
        handler.handle_call_result(&mut shared, &msg_id, &payload),
        Some(CommonOcppAction::Heartbeat)
    );
    assert_eq!(shared.get_transaction_id(), None);
}

#[test]
fn call_error_settles_the_correlation() {
    let handler = V16MessageHandler::new();
    let mut shared: SharedState<OcppAction> = SharedState::new();
    let msg_id = shared.register(OcppAction::Authorize);
    assert_eq!(
        handler.handle_call_error(&mut shared, &msg_id),
        Some(OcppAction::Authorize)
    );
    assert_eq!(handler.handle_call_error(&mut shared, &msg_id), None);
}

#[test]
fn v201_handler_resolves_the_2x_catalog() {
    let handler = V201MessageHandler::new();
    match handler.parse_ocpp_message("[2,\"a\",\"TransactionEvent\",{}]") {
        Ok(V201MessageFrame::Call { action, .. }) => assert_eq!(action, A2::TransactionEvent),
        other => panic!("unexpected: {other:?}"),
    }
    // a 1.6-only action is unknown to the 2.x catalog
    match handler.parse_ocpp_message("[2,\"b\",\"StartTransaction\",{}]") {
        Err(FrameError::UnknownAction { msg_id }) => assert_eq!(msg_id, "b"),
        other => panic!("unexpected: {other:?}"),
    }
}

#[test]
fn v21_handler_shares_the_2x_catalog() {
    let handler = V21MessageHandler::new();
    match handler.parse_ocpp_message("[2,\"c\",\"GetCRL\",{}]") {
        Ok(V201MessageFrame::Call { action, .. }) => assert_eq!(action, A2::GetCRL),
        other => panic!("unexpected: {other:?}"),
    }
}
