use ocpp_cp_simulator::config::{ChargePointConfig, Config, GeneralConfig,
    ImplicitChargePointConfig};
use ocpp_cp_simulator::cp::ChargePointClient;
use ocpp_cp_simulator::simulator::{BehaviorMode, Simulator, format_zpad6};
use ocpp_cp_simulator::version::OcppVersion;

fn implicit(count: usize, prefix: &str) -> ImplicitChargePointConfig {
    ImplicitChargePointConfig {
        count,
        prefix: prefix.to_string(),
        boot_delay_range: [0, 100],
        heartbeat_interval_range: [30, 60],
        status_interval_range: [10, 20],
        start_tx_after_range: [1, 5],
        stop_tx_after_range: [2, 8],
        id_tags: vec!["tagA".to_string(), "tagB".to_string()],
    }
}

fn general() -> GeneralConfig {
    GeneralConfig {
        debug_mode: false,
        server_url: "ws://localhost:3000".to_string(),
        ocpp_version: OcppVersion::V1_6,
    }
}

#[test]
fn implicit_fleet_ids_are_prefixed_and_padded() {
    let cps = Simulator::generate_implicit_cps(&implicit(3, "CP"));
    assert_eq!(cps.len(), 3);
    assert_eq!(cps[0].id, "CP000000");
    assert_eq!(cps[1].id, "CP000001");
    assert_eq!(cps[2].id, "CP000002");
    for cp in &cps {
        assert!(cp.auth_header.is_empty());
        assert!((30..=60).contains(&cp.heartbeat_interval));
        assert!((0..=100).contains(&cp.boot_delay_interval));
        assert!((10..=20).contains(&cp.status_interval));
        assert!((1..=5).contains(&cp.start_tx_after));
        assert!((2..=8).contains(&cp.stop_tx_after));
        assert_eq!(cp.id_tags, vec!["tagA".to_string(), "tagB".to_string()]);
    }
}

#[test]
fn expansion_counts_explicit_plus_implicit() {
    let explicit = ChargePointConfig {
        id: "EXPLICIT1".to_string(),
        auth_header: "Basic-test-header".to_string(),
        boot_delay_interval: 0,
        heartbeat_interval: 60,
        status_interval: 30,
        start_tx_after: 1,
        stop_tx_after: 2,
        id_tags: vec![],
    };
    let config = Config {
        general: general(),
        charge_points: Some(vec![explicit]),
        implicit_charge_points: Some(implicit(4, "FLT")),
    };
    let all = Simulator::new(BehaviorMode::Dynamic, config).expand_charge_points();
    assert_eq!(all.len(), 5);
    assert_eq!(all[0].id, "EXPLICIT1");
    assert_eq!(all[1].id, "FLT000000");
    assert_eq!(all[4].id, "FLT000003");
}

#[test]
fn expansion_without_implicit_keeps_explicit_only() {
    let config = Config {
        general: general(),
        charge_points: None,
        implicit_charge_points: None,
    };
    let all = Simulator::new(BehaviorMode::Idle, config).expand_charge_points();
    assert!(all.is_empty());
}

#[test]
fn zero_padding_is_six_digits() {
    assert_eq!(format_zpad6(0), "000000");
    assert_eq!(format_zpad6(7), "000007");
    assert_eq!(format_zpad6(123456), "123456");
    assert_eq!(format_zpad6(9876543), "9876543");
}

#[test]
fn behavior_mode_descriptions() {
    assert_eq!(
        BehaviorMode::Idle.description(),
        "Mode Idle waits on commands from a CSMS"
    );
    assert_eq!(
        BehaviorMode::Dynamic.description(),
        "Mode Dynamic sends messages immediately after initialization"
    );
}

#[test]
fn request_target_joins_url_and_id() {
    let cp = ChargePointConfig {
        id: "CP000001".to_string(),
        auth_header: String::new(),
        boot_delay_interval: 0,
        heartbeat_interval: 60,
        status_interval: 30,
        start_tx_after: 1,
        stop_tx_after: 2,
        id_tags: vec![],
    };
    assert_eq!(
        ChargePointClient::request_target(&general(), &cp),
        "ws://localhost:3000/CP000001"
    );
}
