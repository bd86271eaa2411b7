use discord_activity::message::{Activity, Message, READY, SET_ACTIVITY};
use discord_activity::packet::Packet;

fn sample_activity() -> Activity {
    Activity {
        pid: 1,
        state: "Idling".to_string(),
        start: 1700000000123,
        instance: true,
        large_image: "idle".to_string(),
        large_text: "Idling".to_string(),
        small_image: "idle".to_string(),
        small_text: "Helix".to_string(),
    }
}

#[test]
fn activity_json_exact_text() {
    assert_eq!(
        sample_activity().to_json(),
        "{\"activity\":{\"assets\":{\"large_image\":\"idle\",\"large_text\":\"Idling\",\"small_image\":\"idle\",\"small_text\":\"Helix\"},\"instance\":true,\"state\":\"Idling\",\"timestamps\":{\"start\":1700000000123}},\"pid\":1}"
    );
}

#[test]
fn message_json_exact_text() {
    let m = Message {
        cmd: SET_ACTIVITY.to_string(),
        nonce: Some("n-1".to_string()),
        args: None,
        evt: None,
    };
    assert_eq!(m.to_json(), "{\"cmd\":\"SET_ACTIVITY\",\"nonce\":\"n-1\",\"args\":null,\"evt\":null}");
}

#[test]
fn message_json_escapes_strings() {
    let m = Message {
        cmd: "a\"b\\c\n".to_string(),
        nonce: None,
        args: None,
        evt: Some("R".to_string()),
    };
    assert_eq!(m.to_json(), "{\"cmd\":\"a\\\"b\\\\c\\n\",\"nonce\":null,\"args\":null,\"evt\":\"R\"}");
}

#[test]
fn message_json_matches_serde_value() {
    let m = Message {
        cmd: SET_ACTIVITY.to_string(),
        nonce: Some("x".to_string()),
        args: Some(sample_activity()),
        evt: None,
    };
    let v: serde_json::Value = serde_json::from_str(&m.to_json()).unwrap();
    assert_eq!(v["cmd"], "SET_ACTIVITY");
    assert_eq!(v["args"]["activity"]["timestamps"]["start"], 1700000000123u64);
    assert_eq!(v["args"]["activity"]["instance"], true);
    assert!(v["evt"].is_null());
}

#[test]
fn idle_activity_fields() {
    let m = Message::idle_activity(42);
    assert_eq!(m.cmd, "SET_ACTIVITY");
    assert_eq!(m.nonce.as_ref().unwrap().len(), 36);
    assert!(m.evt.is_none());
    let a = m.args.as_ref().unwrap();
    assert_eq!(a.state, "Idling");
    assert_eq!(a.large_text, "Idling");
    assert_eq!(a.start, 42);
    assert_eq!(a.pid, 1);
}

#[test]
fn nonces_are_fresh() {
    let a = Message::idle_activity(1);
    let b = Message::idle_activity(1);
    assert_ne!(a.nonce, b.nonce);
}

#[test]
fn file_activity_state() {
    let m = Message::file_activity("main.rs", 7);
    let a = m.args.as_ref().unwrap();
    assert_eq!(a.state, "Editing main.rs");
    assert_eq!(a.large_text, "Editing file");
    assert_eq!(a.small_text, "Helix");
}

#[test]
fn evt_matches_only_present_equal_event() {
    let mut m = Message { cmd: "DISPATCH".to_string(), nonce: None, args: None, evt: None };
    assert!(!m.evt_matches(READY));
    m.evt = Some("READY".to_string());
    assert!(m.evt_matches("READY"));
    assert!(!m.evt_matches("ERROR"));
    assert!(!m.evt_matches("READ"));
}

#[test]
fn message_packet_is_data_frame_of_json() {
    let m = Message { cmd: "C".to_string(), nonce: None, args: None, evt: None };
    let text = m.to_json();
    match m.into_packet() {
        Packet::FRAME(b) => assert_eq!(b, text.into_bytes()),
        other => panic!("{:?}", other),
    }
}

#[test]
fn handshake_payload_exact_text() {
    match Packet::handshake_with_nonce(123, "abc") {
        Packet::HANDSHAKE(b) => {
            assert_eq!(String::from_utf8(b).unwrap(), "{\"client_id\":\"123\",\"nonce\":\"abc\",\"v\":1}")
        }
        other => panic!("{:?}", other),
    }
}

#[test]
fn handshake_has_fresh_nonce() {
    let p = Packet::handshake(1274291961792167997);
    assert_eq!(p.op_code(), 0);
    let v: serde_json::Value = serde_json::from_slice(&p.payload()).unwrap();
    assert_eq!(v["client_id"], "1274291961792167997");
    assert_eq!(v["v"], 1);
    assert_eq!(v["nonce"].as_str().unwrap().len(), 36);
}
