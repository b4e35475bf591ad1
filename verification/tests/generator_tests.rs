use ocpp_cp_simulator::codec::RawFrame;
use ocpp_cp_simulator::correlation::SharedState;
use ocpp_cp_simulator::json::{Json, json_to_string, obj_get};
use ocpp_cp_simulator::mock_data::{MeterReadings, format_milli, meter_value_json};
use ocpp_cp_simulator::msg_generator::{MessageGeneratorConfig, MessageGeneratorConfigBuilder};
use ocpp_cp_simulator::types::CommonConnectorStatusType;
use ocpp_cp_simulator::v1_6::OcppAction;
use ocpp_cp_simulator::v1_6::msg_generator::MessageGenerator;
use ocpp_cp_simulator::v2_0_1::OcppAction as A2;
use ocpp_cp_simulator::v2_0_1::msg_generator::V201MessageGenerator;

fn call_parts(f: RawFrame) -> (String, String, Json) {
    match f {
        RawFrame::Call { msg_id, action, payload } => (msg_id, action, payload),
        _ => panic!("expected a Call"),
    }
}

#[test]
fn builder_fills_defaults() {
    let cfg = MessageGeneratorConfigBuilder::new().build();
    assert_eq!(cfg.serial_number, "ocpp-charge-point-simulator");
    assert_eq!(cfg.vendor, "ocpp-rust");
    assert_eq!(cfg.model, "ocpp-rust-v1");
    assert_eq!(cfg.id_tag, "7e181c99");

    let cfg = MessageGeneratorConfigBuilder::new()
        .serial_number("sn-1".to_string())
        .vendor("acme".to_string())
        .model("m1".to_string())
        .id_tag("tag9".to_string())
        .build();
    assert_eq!(cfg.serial_number, "sn-1");
    assert_eq!(cfg.vendor, "acme");
    assert_eq!(cfg.model, "m1");
    assert_eq!(cfg.id_tag, "tag9");
}

#[test]
fn boot_notification_payload_matches_the_published_schema_types() {
    let mut shared: SharedState<OcppAction> = SharedState::new();
    let generator = MessageGenerator::new(MessageGeneratorConfig::default());
    let (_, action, payload) = call_parts(generator.boot_notification(&mut shared));
    assert_eq!(action, "BootNotification");
    let ours = json_to_string(&payload);
    // the same request serialized by the OCPP schema types
    let reference = rust_ocpp::v1_6::messages::boot_notification::BootNotificationRequest {
        charge_point_model: "ocpp-rust-v1".to_string(),
        charge_point_vendor: "ocpp-rust".to_string(),
        ..Default::default()
    };
    assert_eq!(ours, serde_json::to_string(&reference).unwrap());
}

#[test]
fn authorize_payload_matches_the_published_schema_types() {
    let mut shared: SharedState<OcppAction> = SharedState::new();
    let generator = MessageGenerator::new(MessageGeneratorConfig::default());
    let (_, action, payload) = call_parts(generator.authorize(&mut shared));
    assert_eq!(action, "Authorize");
    let reference = rust_ocpp::v1_6::messages::authorize::AuthorizeRequest {
        id_tag: "7e181c99".to_string(),
    };
    assert_eq!(json_to_string(&payload), serde_json::to_string(&reference).unwrap());
}

#[test]
fn start_transaction_payload_fields() {
    let mut shared: SharedState<OcppAction> = SharedState::new();
    let generator = MessageGenerator::new(MessageGeneratorConfig::default());
    let (_, action, payload) =
        call_parts(generator.start_transaction(&mut shared, "2024-01-01T00:00:00+00:00"));
    assert_eq!(action, "StartTransaction");
    assert_eq!(
        json_to_string(&payload),
        "{\"connectorId\":1,\"idTag\":\"7e181c99\",\"meterStart\":0,\
         \"timestamp\":\"2024-01-01T00:00:00+00:00\"}"
    );
}

#[test]
fn stop_transaction_uses_assigned_or_placeholder_id() {
    let mut shared: SharedState<OcppAction> = SharedState::new();
    let generator = MessageGenerator::new(MessageGeneratorConfig::default());
    let (_, _, payload) = call_parts(generator.stop_transaction(&mut shared, "T"));
    assert_eq!(obj_get(&payload, "transactionId"), Some(&Json::Int(1)));
    shared.transaction_id(777);
    let (_, _, payload) = call_parts(generator.stop_transaction(&mut shared, "T"));
    assert_eq!(obj_get(&payload, "transactionId"), Some(&Json::Int(777)));
}

#[test]
fn status_notification_payload_fields() {
    let mut shared: SharedState<OcppAction> = SharedState::new();
    let generator = MessageGenerator::new(MessageGeneratorConfig::default());
    let (_, action, payload) = call_parts(generator.status_notification(
        &mut shared,
        CommonConnectorStatusType::Preparing,
        "TS",
    ));
    assert_eq!(action, "StatusNotification");
    assert_eq!(
        json_to_string(&payload),
        "{\"connectorId\":1,\"errorCode\":\"NoError\",\"status\":\"Preparing\",\"timestamp\":\"TS\"}"
    );
}

#[test]
fn meter_values_needs_a_transaction_id() {
    let mut shared: SharedState<OcppAction> = SharedState::new();
    let generator = MessageGenerator::new(MessageGeneratorConfig::default());
    let readings = MeterReadings::sample();
    assert!(generator.meter_values(&mut shared, &readings, "TS").is_none());
    shared.transaction_id(5);
    let frame = generator.meter_values(&mut shared, &readings, "TS").unwrap();
    let (_, action, payload) = call_parts(frame);
    assert_eq!(action, "MeterValues");
    assert_eq!(obj_get(&payload, "transactionId"), Some(&Json::Int(5)));
    // the meter value list holds one entry with ten sampled values
    match obj_get(&payload, "meterValue") {
        Some(Json::Arr(items)) => {
            assert_eq!(items.len(), 1);
            match obj_get(&items[0], "sampledValue") {
                Some(Json::Arr(samples)) => assert_eq!(samples.len(), 10),
                _ => panic!("expected sampledValue list"),
            }
        }
        _ => panic!("expected meterValue list"),
    }
}

#[test]
fn meter_value_json_is_schema_valid() {
    let readings = MeterReadings {
        current_l1_ma: 16000,
        current_l2_ma: 16500,
        current_l3_ma: 17000,
        voltage_l1_mv: 230000,
        voltage_l2_mv: 231000,
        voltage_l3_mv: 232000,
        energy_mwh: 12345678,
    };
    let j = meter_value_json("2024-05-06T07:08:09+00:00", &readings);
    let text = json_to_string(&j);
    let parsed: rust_ocpp::v1_6::types::MeterValue =
        serde_json::from_str(&text).expect("schema-valid MeterValue");
    assert_eq!(parsed.sampled_value.len(), 10);
    assert_eq!(parsed.sampled_value[0].value, "16.000");
    assert_eq!(
        parsed.sampled_value[0].measurand,
        Some(rust_ocpp::v1_6::types::Measurand::CurrentImport)
    );
    assert_eq!(parsed.sampled_value[3].value, "12345.678");
    // power = V * I / 1000, in milli-kilowatts: 230.000 V * 16.000 A = 3.680 kW
    assert_eq!(parsed.sampled_value[4].value, "3.680");
    assert_eq!(parsed.sampled_value[7].value, "230.000");
}

#[test]
fn format_milli_pads_three_decimals() {
    assert_eq!(format_milli(0), "0.000");
    assert_eq!(format_milli(5), "0.005");
    assert_eq!(format_milli(50), "0.050");
    assert_eq!(format_milli(12345), "12.345");
    assert_eq!(format_milli(1000), "1.000");
}

#[test]
fn registered_ids_are_distinct_and_pending() {
    let mut shared: SharedState<OcppAction> = SharedState::new();
    let generator = MessageGenerator::new(MessageGeneratorConfig::default());
    let mut ids = Vec::new();
    for _ in 0..50 {
        let (msg_id, _, _) = call_parts(generator.heartbeat(&mut shared));
        assert!(!ids.contains(&msg_id));
        assert_eq!(shared.get_msg(&msg_id), Some(OcppAction::Heartbeat));
        ids.push(msg_id);
    }
    // settling an entry removes exactly that entry
    assert_eq!(shared.take_msg(&ids[7]), Some(OcppAction::Heartbeat));
    assert_eq!(shared.take_msg(&ids[7]), None);
    assert_eq!(shared.get_msg(&ids[8]), Some(OcppAction::Heartbeat));
}

#[test]
fn v201_generator_payloads() {
    let mut shared: SharedState<A2> = SharedState::new();
    let generator = V201MessageGenerator::new(MessageGeneratorConfig::default());
    let (_, action, payload) = match generator.boot_notification(&mut shared) {
        RawFrame::Call { msg_id, action, payload } => (msg_id, action, payload),
        _ => panic!("expected Call"),
    };
    assert_eq!(action, "BootNotification");
    assert_eq!(
        json_to_string(&payload),
        "{\"reason\":\"PowerUp\",\"chargingStation\":{\"model\":\"ocpp-rust-v1\",\
         \"vendorName\":\"ocpp-rust\",\"firmwareVersion\":\"1.2.3\"}}"
    );
    let (_, action, payload) = match generator.start_transaction(&mut shared, "TS") {
        RawFrame::Call { msg_id, action, payload } => (msg_id, action, payload),
        _ => panic!("expected Call"),
    };
    assert_eq!(action, "TransactionEvent");
    assert_eq!(
        json_to_string(&payload),
        "{\"eventType\":\"Started\",\"timestamp\":\"TS\",\"triggerReason\":\"CablePluggedIn\",\
         \"seqNo\":1,\"transactionInfo\":{\"transactionId\":\"42\"}}"
    );
}
