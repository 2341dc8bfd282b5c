use termpop::ipc::{decode_length, encode_message, socket_path, socket_path_under, Request, Response};

#[test]
fn encode_decode_length_roundtrip() {
    let payload = b"hello world";
    let encoded = encode_message(payload);
    assert_eq!(encoded.len(), 4 + payload.len());

    let mut header = [0u8; 4];
    header.copy_from_slice(&encoded[..4]);
    let len = decode_length(&header);
    assert_eq!(len, payload.len());
    assert_eq!(&encoded[4..], payload);
}

#[test]
fn encode_empty_message() {
    let encoded = encode_message(b"");
    assert_eq!(encoded.len(), 4);
    let mut header = [0u8; 4];
    header.copy_from_slice(&encoded[..4]);
    assert_eq!(decode_length(&header), 0);
}

#[test]
fn socket_path_ends_with_daemon_sock() {
    let path = socket_path();
    assert!(std::path::Path::new(&path).ends_with("termpop/daemon.sock"));
}

#[test]
fn encode_writes_length_big_endian() {
    let payload = vec![7u8; 0x0102];
    let encoded = encode_message(&payload);
    assert_eq!(&encoded[..4], &[0, 0, 1, 2]);
    assert_eq!(encoded.len(), 4 + 0x0102);
}

#[test]
fn decode_reads_big_endian() {
    assert_eq!(decode_length(&[0x01, 0x02, 0x03, 0x04]), 0x0102_0304);
    assert_eq!(decode_length(&[0xff, 0xff, 0xff, 0xff]), 0xffff_ffff);
}

#[test]
fn socket_path_under_given_directory() {
    assert_eq!(
        socket_path_under(Some("/Users/me/Library/Application Support".to_string())),
        "/Users/me/Library/Application Support/termpop/daemon.sock"
    );
    assert_eq!(
        socket_path_under(Some("/data/".to_string())),
        "/data/termpop/daemon.sock"
    );
}

#[test]
fn socket_path_falls_back_to_tmp() {
    assert_eq!(socket_path_under(None), "/tmp/termpop/daemon.sock");
}

#[test]
fn messages_compare_by_content() {
    let open = Request::Open { initial_text: Some("hello".to_string()), title: None };
    assert_eq!(open.clone(), open);
    assert_ne!(Request::Status, Request::Shutdown);
    assert_ne!(
        Response::Result { text: String::new(), cancelled: true },
        Response::Acknowledged
    );
}
