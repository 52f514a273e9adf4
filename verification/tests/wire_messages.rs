use scanner::{CodeType, ScanEvent, ScanResult};

fn message_text(code: &str, code_type: CodeType) -> String {
    let event = ScanEvent::of_result(&ScanResult { code: String::from(code), code_type });
    String::from_utf8(event.message()).expect("the message is valid UTF-8")
}

/// What serde_json prints for the same two fields (its maps order keys).
fn serde_reference(code: &str, label: &str) -> String {
    let mut map = serde_json::Map::new();
    map.insert(String::from("type"), serde_json::Value::String(String::from(label)));
    map.insert(String::from("code"), serde_json::Value::String(String::from(code)));
    serde_json::Value::Object(map).to_string()
}

#[test]
fn plain_message_is_exact() {
    assert_eq!(message_text("hello", CodeType::QrCode), "{\"code\":\"hello\",\"type\":\"QR\"}");
    assert_eq!(
        message_text("4006381333931", CodeType::Barcode),
        "{\"code\":\"4006381333931\",\"type\":\"BARCODE\"}"
    );
}

#[test]
fn quotes_and_backslashes_are_escaped() {
    assert_eq!(
        message_text("a\"b\\c", CodeType::QrCode),
        "{\"code\":\"a\\\"b\\\\c\",\"type\":\"QR\"}"
    );
}

#[test]
fn control_characters_are_escaped() {
    assert_eq!(
        message_text("l1\nl2\tend", CodeType::QrCode),
        "{\"code\":\"l1\\nl2\\tend\",\"type\":\"QR\"}"
    );
    assert_eq!(
        message_text("\u{1}\u{1f}", CodeType::QrCode),
        "{\"code\":\"\\u0001\\u001f\",\"type\":\"QR\"}"
    );
}

#[test]
fn multibyte_text_passes_through() {
    assert_eq!(
        message_text("caf\u{e9} \u{ad94}\u{c77c}", CodeType::QrCode),
        "{\"code\":\"caf\u{e9} \u{ad94}\u{c77c}\",\"type\":\"QR\"}"
    );
}

#[test]
fn message_matches_serde_json_output() {
    for code in ["plain", "with \"quote\"", "tab\there", "\u{0}start", "유니코드", "back\\slash"] {
        assert_eq!(message_text(code, CodeType::QrCode), serde_reference(code, "QR"));
        assert_eq!(message_text(code, CodeType::Barcode), serde_reference(code, "BARCODE"));
    }
}
