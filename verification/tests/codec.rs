use base64::engine::general_purpose::STANDARD;
use base64::Engine;
use persist_commands::codec::decode_export_content;

#[test]
fn decode_rejects_characters_outside_the_alphabet() {
    let r = decode_export_content("not-base64!!");
    let m = r.unwrap_err();
    assert!(m.starts_with("Failed to decode base64 content: "));
}

#[test]
fn decode_rejects_a_truncated_encoding() {
    let r = decode_export_content("AA");
    let m = r.unwrap_err();
    assert!(m.starts_with("Failed to decode base64 content: "));
}

#[test]
fn decode_inverts_standard_encoding() {
    let bytes: Vec<u8> = vec![7, 0, 255, 42, 128, 1];
    let encoded = STANDARD.encode(&bytes);
    let r = decode_export_content(&encoded);
    assert_eq!(r, Ok(bytes));
}

#[test]
fn decode_of_known_text_is_exact() {
    let r = decode_export_content("aGVsbG8=");
    assert_eq!(r, Ok(b"hello".to_vec()));
}

#[test]
fn decode_of_known_bytes_is_exact() {
    let r = decode_export_content("AQID");
    assert_eq!(r, Ok(vec![1, 2, 3]));
}

#[test]
fn decode_of_empty_payload_is_empty() {
    let r = decode_export_content("");
    assert_eq!(r, Ok(Vec::new()));
}
