use rtre::subscription::subscribe_frame;
use serde_json::Value;

#[test]
fn subscribe_frame_for_a_plain_ticker() {
    assert_eq!(subscribe_frame("AAPL"), "{\"type\":\"subscribe\",\"symbol\":\"AAPL\"}");
}

#[test]
fn subscribe_frame_for_a_ticker_with_punctuation() {
    assert_eq!(
        subscribe_frame("BINANCE:BTC/USDT"),
        "{\"type\":\"subscribe\",\"symbol\":\"BINANCE:BTC/USDT\"}"
    );
}

#[test]
fn subscribe_frame_for_the_empty_ticker() {
    assert_eq!(subscribe_frame(""), "{\"type\":\"subscribe\",\"symbol\":\"\"}");
}

#[test]
fn subscribe_frame_escapes_quote_and_backslash() {
    assert_eq!(
        subscribe_frame("A\"B\\C"),
        "{\"type\":\"subscribe\",\"symbol\":\"A\\\"B\\\\C\"}"
    );
}

#[test]
fn subscribe_frame_escapes_the_named_control_characters() {
    assert_eq!(
        subscribe_frame("\u{8}\u{c}\n\r\t"),
        "{\"type\":\"subscribe\",\"symbol\":\"\\b\\f\\n\\r\\t\"}"
    );
}

#[test]
fn subscribe_frame_escapes_every_other_control_character_in_hex() {
    let digits = "0123456789abcdef".as_bytes();
    for code in 0u8..0x20 {
        if [0x08u8, 0x09, 0x0a, 0x0c, 0x0d].contains(&code) {
            continue;
        }
        let ticker = (code as char).to_string();
        let high = digits[(code / 16) as usize] as char;
        let low = digits[(code % 16) as usize] as char;
        let expected = format!("{{\"type\":\"subscribe\",\"symbol\":\"\\u00{}{}\"}}", high, low);
        assert_eq!(subscribe_frame(&ticker), expected);
    }
}

#[test]
fn subscribe_frame_writes_a_late_control_character_in_lower_case() {
    assert_eq!(
        subscribe_frame("\u{1f}"),
        "{\"type\":\"subscribe\",\"symbol\":\"\\u001f\"}"
    );
}

#[test]
fn subscribe_frame_leaves_every_other_ascii_character_alone() {
    for code in 0x20u8..=0x7f {
        let c = code as char;
        if c == '"' || c == '\\' {
            continue;
        }
        let expected = format!("{{\"type\":\"subscribe\",\"symbol\":\"{}\"}}", c);
        assert_eq!(subscribe_frame(&c.to_string()), expected);
    }
}

#[test]
fn subscribe_frame_leaves_characters_beyond_ascii_alone() {
    assert_eq!(
        subscribe_frame("Zürich-日本-\u{1F4C8}-\u{80}-\u{2028}"),
        "{\"type\":\"subscribe\",\"symbol\":\"Zürich-日本-\u{1F4C8}-\u{80}-\u{2028}\"}"
    );
}

#[test]
fn subscribe_frame_puts_the_type_before_the_symbol() {
    let frame = subscribe_frame("MSFT");
    let at_type = frame.find("\"type\"").unwrap();
    let at_symbol = frame.find("\"symbol\"").unwrap();
    assert!(at_type < at_symbol);
}

#[test]
fn subscribe_frame_reads_back_as_the_subscription() {
    for ticker in ["AAPL", "", "A\"B\\C", "line\nbreak\ttab", "\u{0}\u{1}\u{1f}\u{7f}", "日本"] {
        let document: Value = serde_json::from_str(&subscribe_frame(ticker)).unwrap();
        let object = document.as_object().unwrap();
        assert_eq!(object.len(), 2);
        assert_eq!(object.get("type"), Some(&Value::String("subscribe".to_string())));
        assert_eq!(object.get("symbol"), Some(&Value::String(ticker.to_string())));
    }
}
