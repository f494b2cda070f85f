use rtre::dispatch::{dispatch, dispatch_decoded, Dispatch, Inbound};
use serde_json::{Number, Value};

fn tick_with_price() -> Value {
    let mut fields = serde_json::Map::new();
    fields.insert("p".to_string(), Value::Number(Number::from_f64(150.25).unwrap()));
    fields.insert("s".to_string(), Value::String("X".to_string()));
    Value::Object(fields)
}

fn tick_without_price() -> Value {
    let mut fields = serde_json::Map::new();
    fields.insert("s".to_string(), Value::String("X".to_string()));
    Value::Object(fields)
}

#[test]
fn a_tick_is_delivered_as_decoded() {
    let decision = dispatch(Inbound::Text("{\"p\": 150.25, \"s\":\"X\"}".to_string()));
    assert_eq!(decision, Dispatch::Deliver(tick_with_price()));
    match decision {
        Dispatch::Deliver(document) => assert_eq!(document["p"].as_f64(), Some(150.25)),
        other => panic!("not delivered: {:?}", other),
    }
}

#[test]
fn a_tick_without_a_price_is_delivered_all_the_same() {
    let decision = dispatch(Inbound::Text("{\"s\":\"X\"}".to_string()));
    assert_eq!(decision, Dispatch::Deliver(tick_without_price()));
    match decision {
        Dispatch::Deliver(document) => assert_eq!(document["p"].as_f64(), None),
        other => panic!("not delivered: {:?}", other),
    }
}

#[test]
fn any_json_document_is_delivered() {
    assert_eq!(dispatch(Inbound::Text("null".to_string())), Dispatch::Deliver(Value::Null));
    assert_eq!(
        dispatch(Inbound::Text(" [1, \"two\", true] ".to_string())),
        Dispatch::Deliver(Value::Array(vec![
            Value::Number(Number::from(1u64)),
            Value::String("two".to_string()),
            Value::Bool(true),
        ]))
    );
}

#[test]
fn a_frame_that_is_not_json_is_reported_with_the_reason() {
    assert_eq!(
        dispatch(Inbound::Text("not json".to_string())),
        Dispatch::Undecodable("expected ident at line 1 column 2".to_string())
    );
}

#[test]
fn an_empty_text_frame_is_reported() {
    assert_eq!(
        dispatch(Inbound::Text(String::new())),
        Dispatch::Undecodable("EOF while parsing a value at line 1 column 0".to_string())
    );
}

#[test]
fn a_cut_off_document_is_reported() {
    assert_eq!(
        dispatch(Inbound::Text("{\"p\": 150.25".to_string())),
        Dispatch::Undecodable("EOF while parsing an object at line 1 column 12".to_string())
    );
}

#[test]
fn text_after_the_document_is_reported() {
    assert_eq!(
        dispatch(Inbound::Text("{} {}".to_string())),
        Dispatch::Undecodable("trailing characters at line 1 column 4".to_string())
    );
}

#[test]
fn a_frame_of_another_kind_is_ignored() {
    assert_eq!(dispatch(Inbound::NonText), Dispatch::Ignore);
}

#[test]
fn a_failed_read_is_reported_and_does_not_stop_the_reading() {
    assert_eq!(
        dispatch(Inbound::Failed("Connection reset without closing handshake".to_string())),
        Dispatch::ReadFailed("Connection reset without closing handshake".to_string())
    );
}

#[test]
fn the_end_of_the_stream_stops_the_reading() {
    assert_eq!(dispatch(Inbound::Closed), Dispatch::Stop);
}

#[test]
fn dispatch_decoded_delivers_the_document_it_is_given() {
    assert_eq!(dispatch_decoded(Ok(tick_with_price())), Dispatch::Deliver(tick_with_price()));
}

#[test]
fn dispatch_decoded_reports_the_reason_it_is_given() {
    assert_eq!(
        dispatch_decoded(Err("expected value".to_string())),
        Dispatch::Undecodable("expected value".to_string())
    );
}

#[test]
fn a_bad_frame_costs_no_later_frame_its_delivery() {
    let frames = vec![
        Inbound::Text("not json".to_string()),
        Inbound::Failed("timed out".to_string()),
        Inbound::NonText,
        Inbound::Text("{\"p\": 150.25, \"s\":\"X\"}".to_string()),
    ];
    let mut delivered = Vec::new();
    for frame in frames {
        match dispatch(frame) {
            Dispatch::Deliver(document) => delivered.push(document),
            Dispatch::Stop => panic!("the reading stopped"),
            _ => {}
        }
    }
    assert_eq!(delivered, vec![tick_with_price()]);
}

#[test]
fn a_document_nested_too_deep_is_reported() {
    let text = format!("{}{}", "[".repeat(200), "]".repeat(200));
    assert_eq!(
        dispatch(Inbound::Text(text)),
        Dispatch::Undecodable("recursion limit exceeded at line 1 column 128".to_string())
    );
}

#[test]
fn a_number_out_of_range_is_reported() {
    assert_eq!(
        dispatch(Inbound::Text("{\"p\": 1e999}".to_string())),
        Dispatch::Undecodable("number out of range at line 1 column 11".to_string())
    );
}

#[test]
fn a_price_as_text_is_delivered_and_is_no_number() {
    match dispatch(Inbound::Text("{\"p\": \"150.25\"}".to_string())) {
        Dispatch::Deliver(document) => {
            assert_eq!(document["p"], Value::String("150.25".to_string()));
            assert_eq!(document["p"].as_f64(), None);
        }
        other => panic!("not delivered: {:?}", other),
    }
}
