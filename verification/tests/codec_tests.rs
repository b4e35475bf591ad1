use ocpp_cp_simulator::codec::{RawFrame, FrameError, frame_decode_json};
use ocpp_cp_simulator::json::{Json, json_to_string, obj_get};
use ocpp_cp_simulator::json_parse::parse_json;

fn obj(members: Vec<(&str, Json)>) -> Json {
    Json::Obj(members.into_iter().map(|(k, v)| (k.to_string(), v)).collect())
}

#[test]
fn encodes_compact_json() {
    let j = obj(vec![
        ("a", Json::Int(1)),
        ("b", Json::Str("x\"y\\z".to_string())),
        ("c", Json::Arr(vec![Json::Null, Json::Bool(true), Json::Bool(false)])),
        ("d", Json::Int(-42)),
    ]);
    assert_eq!(
        json_to_string(&j),
        "{\"a\":1,\"b\":\"x\\\"y\\\\z\",\"c\":[null,true,false],\"d\":-42}"
    );
}

#[test]
fn encodes_control_characters_as_escapes() {
    let j = Json::Str("a\nb\tc\u{01}".to_string());
    assert_eq!(json_to_string(&j), "\"a\\nb\\tc\\u0001\"");
}

#[test]
fn encoded_output_is_json_for_serde() {
    let j = obj(vec![
        ("k", Json::Str("v\u{1F600}".to_string())),
        ("n", Json::Int(i64::MAX)),
    ]);
    let text = json_to_string(&j);
    let v: serde_json::Value = serde_json::from_str(&text).expect("serde accepts our output");
    assert_eq!(v["k"], serde_json::Value::String("v\u{1F600}".to_string()));
    assert_eq!(v["n"], serde_json::Value::from(i64::MAX));
}

#[test]
fn parses_whitespace_and_escapes() {
    let j = parse_json(" { \"a\" : [ 1 , -2, \"x\\u0041\\n\" ] } ").unwrap();
    match &j {
        Json::Obj(members) => {
            assert_eq!(members.len(), 1);
            assert_eq!(members[0].0, "a");
            match &members[0].1 {
                Json::Arr(items) => {
                    assert_eq!(items[0], Json::Int(1));
                    assert_eq!(items[1], Json::Int(-2));
                    assert_eq!(items[2], Json::Str("xA\n".to_string()));
                }
                _ => panic!("expected array"),
            }
        }
        _ => panic!("expected object"),
    }
}

#[test]
fn parses_surrogate_pairs() {
    let j = parse_json("\"\\uD83D\\uDE00\"").unwrap();
    assert_eq!(j, Json::Str("\u{1F600}".to_string()));
}

#[test]
fn keeps_non_integer_numbers_verbatim() {
    let j = parse_json("[1.5,2e3,99999999999999999999]").unwrap();
    match &j {
        Json::Arr(items) => {
            assert_eq!(items[0], Json::NumRaw("1.5".to_string()));
            assert_eq!(items[1], Json::NumRaw("2e3".to_string()));
            assert_eq!(items[2], Json::NumRaw("99999999999999999999".to_string()));
        }
        _ => panic!("expected array"),
    }
    assert_eq!(json_to_string(&j), "[1.5,2e3,99999999999999999999]");
}

#[test]
fn rejects_nesting_beyond_the_depth_cap() {
    // 512 levels parse; 600 do not
    let deep_ok = format!("{}null{}", "[".repeat(511), "]".repeat(511));
    assert!(parse_json(&deep_ok).is_some());
    let too_deep = format!("{}null{}", "[".repeat(600), "]".repeat(600));
    assert!(parse_json(&too_deep).is_none());
}

#[test]
fn rejects_garbage() {
    assert!(parse_json("").is_none());
    assert!(parse_json("{").is_none());
    assert!(parse_json("[1,]").is_none());
    assert!(parse_json("tru").is_none());
    assert!(parse_json("\"unterminated").is_none());
    assert!(parse_json("[1] trailing").is_none());
}

#[test]
fn text_round_trips_through_parser() {
    let j = obj(vec![
        ("s", Json::Str("nested \"quotes\" and \\slashes\\".to_string())),
        ("arr", Json::Arr(vec![Json::Int(0), obj(vec![("x", Json::Null)])])),
    ]);
    let text = json_to_string(&j);
    assert_eq!(parse_json(&text), Some(j));
}

#[test]
fn frame_round_trip_call() {
    let f = RawFrame::Call {
        msg_id: "m-1".to_string(),
        action: "Heartbeat".to_string(),
        payload: obj(vec![]),
    };
    let text = f.encode();
    assert_eq!(text, "[2,\"m-1\",\"Heartbeat\",{}]");
    let back = frame_decode_json(parse_json(&text).unwrap()).unwrap();
    match back {
        RawFrame::Call { msg_id, action, payload } => {
            assert_eq!(msg_id, "m-1");
            assert_eq!(action, "Heartbeat");
            assert_eq!(payload, obj(vec![]));
        }
        _ => panic!("expected Call"),
    }
}

#[test]
fn frame_round_trip_call_result() {
    let f = RawFrame::CallResult {
        msg_id: "x1".to_string(),
        payload: obj(vec![("status", Json::Str("Accepted".to_string()))]),
    };
    let text = f.encode();
    assert_eq!(text, "[3,\"x1\",{\"status\":\"Accepted\"}]");
    let back = frame_decode_json(parse_json(&text).unwrap()).unwrap();
    assert!(matches!(back, RawFrame::CallResult { .. }));
}

#[test]
fn frame_round_trip_call_error() {
    let f = RawFrame::CallError {
        msg_id: "e9".to_string(),
        error_code: "NotImplemented".to_string(),
        description: "Unknown action".to_string(),
        details: obj(vec![]),
    };
    let text = f.encode();
    assert_eq!(text, "[4,\"e9\",\"NotImplemented\",\"Unknown action\",{}]");
    let back = frame_decode_json(parse_json(&text).unwrap()).unwrap();
    match back {
        RawFrame::CallError { msg_id, error_code, description, details } => {
            assert_eq!(msg_id, "e9");
            assert_eq!(error_code, "NotImplemented");
            assert_eq!(description, "Unknown action");
            assert_eq!(details, obj(vec![]));
        }
        _ => panic!("expected CallError"),
    }
}

#[test]
fn call_error_without_details_gets_empty_details() {
    let back = frame_decode_json(parse_json("[4,\"e\",\"c\",\"d\"]").unwrap()).unwrap();
    match back {
        RawFrame::CallError { details, .. } => assert_eq!(details, obj(vec![])),
        _ => panic!("expected CallError"),
    }
}

#[test]
fn malformed_frames_are_rejected() {
    for text in [
        "{}",
        "[]",
        "[5,\"x\",{}]",
        "[2,\"x\",{}]",
        "[2,7,\"Heartbeat\",{}]",
        "[3,\"x\"]",
        "[4,\"x\",\"c\"]",
    ] {
        let j = parse_json(text).unwrap();
        assert_eq!(frame_decode_json(j), Err(FrameError::MalformedFrame), "{text}");
    }
}

#[test]
fn obj_get_finds_first_member() {
    let j = obj(vec![("a", Json::Int(1)), ("b", Json::Int(2)), ("a", Json::Int(3))]);
    assert_eq!(obj_get(&j, "a"), Some(&Json::Int(1)));
    assert_eq!(obj_get(&j, "b"), Some(&Json::Int(2)));
    assert_eq!(obj_get(&j, "zz"), None);
}
