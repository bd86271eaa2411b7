use discord_activity::websocket::{handshake_message, switch_accepted, Frame, SWITCH_PROTOCOLS_HEADER};

#[test]
fn masked_frame_exact_bytes() {
    let f = Frame::new("hello".to_string());
    let key = [1u8, 2, 3, 4];
    let b = f.masked_bytes(key);
    assert_eq!(b[0], 0x81);
    assert_eq!(b[1], 0x80 | 5);
    assert_eq!(&b[2..6], &key);
    assert_eq!(&b[6..], &[b'h' ^ 1, b'e' ^ 2, b'l' ^ 3, b'l' ^ 4, b'o' ^ 1]);
}

#[test]
fn random_mask_unmasks_to_payload() {
    let b = Frame::new("text".to_string()).as_bytes();
    assert_eq!(b.len(), 2 + 4 + 4);
    let key = [b[2], b[3], b[4], b[5]];
    let plain: Vec<u8> = b[6..].iter().enumerate().map(|(i, x)| x ^ key[i % 4]).collect();
    assert_eq!(plain, b"text".to_vec());
}

#[test]
fn upgrade_request_text() {
    let m = handshake_message();
    assert!(m.starts_with("GET / HTTP/1.1\r\n"));
    assert!(m.ends_with("Sec-WebSocket-Version: 13\r\n\r\n"));
}

#[test]
fn switch_status_line() {
    assert!(switch_accepted(&vec![SWITCH_PROTOCOLS_HEADER.to_string(), "\r\n".to_string()]));
    assert!(!switch_accepted(&vec!["HTTP/1.1 400 Bad Request\r\n".to_string()]));
    assert!(!switch_accepted(&vec![]));
}
