use panono_client::catalog::decode_status;
use panono_client::codec::{decode_envelope, encode, split_frame, Method, PacketIncoming};
use panono_client::engine::{on_message, Observed, Session, Step};
use panono_client::json::{get_field, json_text, parse_json, Json, JsonNumber};

fn auth() -> Method {
    Method::Auth { device: "test".to_string(), force: "test".to_string() }
}

const STATUS_REPLY: &str = r#"{"id":1,"jsonrpc":"2.0","result":{"auth_token":"t","capture_available":true,"current_time":"now","device_id":"d","firmware_update_url":"","firmware_version":"1","is_auth":true,"serial_number":"s","storage":{},"update_ready":false},"warning":null}"#;
const STATUS_PUSH: &str = r#"{"jsonrpc":"2.0","method":"status_update","params":{"capture_available":false}}"#;

#[test]
fn encode_auth_request() {
    let text = encode(1, &auth());
    assert!(!text.contains('\n'));
    let j = parse_json(&text).unwrap();
    assert!(matches!(get_field(&j, "id"), Some(Json::Number(JsonNumber::PosInt(1)))));
    assert!(matches!(get_field(&j, "method"), Some(Json::Str(m)) if m == "auth"));
    assert!(matches!(get_field(&j, "jsonrpc"), Some(Json::Str(v)) if v == "2.0"));
    match get_field(&j, "params") {
        Some(p) => {
            assert!(matches!(get_field(p, "device"), Some(Json::Str(d)) if d == "test"));
            assert!(matches!(get_field(p, "force"), Some(Json::Str(f)) if f == "test"));
        }
        None => panic!("auth carries params"),
    }
}

#[test]
fn encode_unit_call_has_no_params() {
    let text = encode(7, &Method::GetStatus);
    let j = parse_json(&text).unwrap();
    assert!(get_field(&j, "params").is_none());
    assert!(matches!(get_field(&j, "method"), Some(Json::Str(m)) if m == "get_status"));
    assert!(matches!(get_field(&j, "id"), Some(Json::Number(JsonNumber::PosInt(7)))));
}

#[test]
fn encode_escapes_line_breaks() {
    let text = encode(2, &Method::GetOption { name: "a\nb".to_string() });
    assert!(!text.contains('\n'));
    assert_eq!(split_frame(&text), vec![text.clone()]);
}

#[test]
fn request_round_trips_as_reply_shape() {
    for (i, m) in [
        auth(),
        Method::DeleteUpf { image_id: "x".to_string() },
        Method::GetUpfInfos,
        Method::GetStatus,
        Method::GetOptions,
        Method::GetOptionList,
        Method::GetOption { name: "ISO".to_string() },
        Method::Capture,
    ]
    .iter()
    .enumerate()
    {
        let id = i as u32 + 1;
        let text = encode(id, m);
        let units = split_frame(&text);
        assert_eq!(units.len(), 1);
        let reply = text.replacen("\"method\"", "\"result\":null,\"unused\"", 1);
        match decode_envelope(&reply) {
            Some(PacketIncoming::Response(r)) => {
                assert_eq!(r.id, id);
                assert!(r.warning.is_none());
            }
            _ => panic!("expected a reply"),
        }
    }
}

#[test]
fn split_two_envelopes() {
    let message = format!("{}\n{}", STATUS_PUSH, STATUS_REPLY);
    let units = split_frame(&message);
    assert_eq!(units, vec![STATUS_PUSH.to_string(), STATUS_REPLY.to_string()]);
    assert!(matches!(decode_envelope(&units[0]), Some(PacketIncoming::IncomingRequest(_))));
    assert!(matches!(decode_envelope(&units[1]), Some(PacketIncoming::Response(_))));
}

#[test]
fn split_drops_empty_pieces() {
    assert_eq!(split_frame(""), Vec::<String>::new());
    assert_eq!(split_frame("\n\na\n\nb\n"), vec!["a".to_string(), "b".to_string()]);
    assert_eq!(split_frame("é\nü"), vec!["é".to_string(), "ü".to_string()]);
}

#[test]
fn decode_envelope_kinds() {
    match decode_envelope(STATUS_PUSH) {
        Some(PacketIncoming::IncomingRequest(n)) => {
            assert_eq!(n.method, "status_update");
            assert_eq!(n.jsonrpc, "2.0");
        }
        _ => panic!("expected a notification"),
    }
    match decode_envelope(r#"{"id":4,"jsonrpc":"2.0","result":1,"warning":{"code":3,"message":"low"}}"#) {
        Some(PacketIncoming::Response(r)) => {
            let w = r.warning.unwrap();
            assert_eq!(w.code, 3);
            assert_eq!(w.message, "low");
            assert!(matches!(r.result, Json::Number(JsonNumber::PosInt(1))));
        }
        _ => panic!("expected a reply"),
    }
    assert!(decode_envelope("not json").is_none());
    assert!(decode_envelope(r#"{"id":1}"#).is_none());
    assert!(decode_envelope(r#"{"id":1,"jsonrpc":"2.0","result":1,"warning":5}"#).is_none());
    assert!(decode_envelope(r#"{"id":-1,"jsonrpc":"2.0","result":1}"#).is_none());
    let err = r#"{"error":{"code":309},"id":3,"jsonrpc":"2.0"}"#;
    match decode_envelope(err) {
        Some(PacketIncoming::Error(e)) => {
            assert_eq!(e.id, 3);
            assert!(matches!(get_field(&e.error, "code"), Some(Json::Number(JsonNumber::PosInt(309)))));
        }
        _ => panic!("expected an error reply"),
    }
}

#[test]
fn session_ids_start_at_one() {
    let mut s = Session::new();
    let (a, text) = s.begin(&auth()).unwrap();
    assert_eq!(a, 1);
    assert_eq!(text, encode(1, &auth()));
    let (b, _) = s.begin(&Method::GetStatus).unwrap();
    assert_eq!(b, 2);
    let mut full = Session { last_id: u32::MAX };
    assert!(full.begin(&Method::GetStatus).is_none());
    assert_eq!(full.last_id, u32::MAX);
}

#[test]
fn auth_end_to_end() {
    let mut s = Session::new();
    let (id, _) = s.begin(&auth()).unwrap();
    match on_message(id, STATUS_REPLY) {
        Step::Done { response, skipped } => {
            assert!(skipped.is_empty());
            assert!(decode_status(&response.result).unwrap().is_auth);
        }
        _ => panic!("the reply matches"),
    }
}

#[test]
fn auth_skips_push_first() {
    let (id, _) = Session::new().begin(&auth()).unwrap();
    match on_message(id, STATUS_PUSH) {
        Step::Waiting { skipped } => {
            assert_eq!(skipped.len(), 1);
            assert!(matches!(&skipped[0], Observed::Packet(PacketIncoming::IncomingRequest(n)) if n.method == "status_update"));
        }
        _ => panic!("a notification is no reply"),
    }
    match on_message(id, STATUS_REPLY) {
        Step::Done { response, .. } => assert!(decode_status(&response.result).unwrap().is_auth),
        _ => panic!("the reply matches"),
    }
}

#[test]
fn only_matching_reply_is_used() {
    let other = r#"{"id":9,"jsonrpc":"2.0","result":{"is_auth":false}}"#;
    let message = format!("{}\n{}\ngarbage\n{}\n{}", other, STATUS_PUSH, STATUS_REPLY, other);
    match on_message(1, &message) {
        Step::Done { response, skipped } => {
            assert_eq!(response.id, 1);
            assert!(decode_status(&response.result).unwrap().is_auth);
            assert_eq!(skipped.len(), 4);
            assert!(matches!(&skipped[0], Observed::Packet(PacketIncoming::Response(r)) if r.id == 9));
            assert!(matches!(&skipped[1], Observed::Packet(PacketIncoming::IncomingRequest(_))));
            assert!(matches!(&skipped[2], Observed::Undecodable(t) if t == "garbage"));
            assert!(matches!(&skipped[3], Observed::Packet(PacketIncoming::Response(r)) if r.id == 9));
        }
        _ => panic!("the reply matches"),
    }
    match on_message(2, &message) {
        Step::Waiting { skipped } => assert_eq!(skipped.len(), 5),
        _ => panic!("nothing answers call 2"),
    }
}

#[test]
fn json_text_writes_compact_json() {
    let j = parse_json(r#"{ "b" : [1, true, null, "x\ny"] }"#).unwrap();
    let t = json_text(&j);
    assert_eq!(t, r#"{"b":[1,true,null,"x\ny"]}"#);
}

#[test]
fn error_reply_ends_the_call() {
    let err = r#"{"error":{"code":309,"request":{"id":3,"jsonrpc":"2.0","method":"delete_upf","params":{"image_id":"4f"}}},"id":3,"jsonrpc":"2.0"}"#;
    let message = format!("{}\n{}", STATUS_PUSH, err);
    match on_message(3, &message) {
        Step::Refused { error, skipped } => {
            assert_eq!(error.id, 3);
            assert_eq!(skipped.len(), 1);
        }
        _ => panic!("the error reply answers call 3"),
    }
    match on_message(4, &message) {
        Step::Waiting { skipped } => {
            assert!(matches!(&skipped[1], Observed::Packet(PacketIncoming::Error(e)) if e.id == 3));
        }
        _ => panic!("nothing answers call 4"),
    }
}
