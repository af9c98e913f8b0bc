use pyesb_amqp::conversion::{
    annotations_to_map, body_to_bytes, delivery_to_data, extract_properties, header_to_json,
    settle_mode_name, simple_value_to_string, BodySection, DeliveryFields, HeaderFields,
    PropertyValue, SettleMode,
};
use pyesb_amqp::message::JsonValue;

fn header(ttl: Option<u32>) -> HeaderFields {
    HeaderFields { durable: true, priority: 4, ttl, first_acquirer: false, delivery_count: 3 }
}

#[test]
fn header_without_ttl() {
    let m = header_to_json(&header(None));
    assert_eq!(
        m,
        vec![
            ("durable".to_string(), JsonValue::Bool(true)),
            ("priority".to_string(), JsonValue::UInt(4)),
            ("first_acquirer".to_string(), JsonValue::Bool(false)),
            ("delivery_count".to_string(), JsonValue::UInt(3)),
        ]
    );
}

#[test]
fn header_with_ttl() {
    let m = header_to_json(&header(Some(60_000)));
    assert_eq!(m.len(), 5);
    assert_eq!(m[2], ("ttl".to_string(), JsonValue::UInt(60_000)));
}

#[test]
fn body_data_sections_are_concatenated() {
    let b = BodySection::Data(vec![vec![1, 2], vec![], vec![3]]);
    assert_eq!(body_to_bytes(&b), vec![1, 2, 3]);
    assert_eq!(body_to_bytes(&BodySection::Data(vec![])), Vec::<u8>::new());
}

#[test]
fn body_binary_and_text() {
    assert_eq!(body_to_bytes(&BodySection::Binary(vec![0, 255])), vec![0, 255]);
    assert_eq!(body_to_bytes(&BodySection::Text("héllo".to_string())), "héllo".as_bytes().to_vec());
}

#[test]
fn body_other_value_and_sequence_use_their_json() {
    assert_eq!(body_to_bytes(&BodySection::OtherValue(Some(b"42".to_vec()))), b"42".to_vec());
    assert_eq!(body_to_bytes(&BodySection::OtherValue(None)), Vec::<u8>::new());
    assert_eq!(body_to_bytes(&BodySection::Sequence(Some(b"[[1]]".to_vec()))), b"[[1]]".to_vec());
    assert_eq!(body_to_bytes(&BodySection::Sequence(None)), Vec::<u8>::new());
}

#[test]
fn body_empty() {
    assert_eq!(body_to_bytes(&BodySection::Empty), Vec::<u8>::new());
}

#[test]
fn property_values_as_text() {
    assert_eq!(simple_value_to_string(&PropertyValue::Text("a".to_string())), "a");
    assert_eq!(simple_value_to_string(&PropertyValue::Symbol("sym".to_string())), "sym");
    assert_eq!(simple_value_to_string(&PropertyValue::Null), "");
    assert_eq!(
        simple_value_to_string(&PropertyValue::Other { json: Some("12".to_string()), debug: "Int(12)".to_string() }),
        "12"
    );
    assert_eq!(
        simple_value_to_string(&PropertyValue::Other { json: None, debug: "Int(12)".to_string() }),
        "Int(12)"
    );
}

#[test]
fn binary_property_is_decoded_lossily() {
    assert_eq!(simple_value_to_string(&PropertyValue::Binary(b"abc".to_vec())), "abc");
    assert_eq!(
        simple_value_to_string(&PropertyValue::Binary(vec![b'a', 0xff, b'b'])),
        "a\u{FFFD}b"
    );
}

#[test]
fn application_properties_keep_keys_in_order() {
    let props = vec![
        ("x".to_string(), PropertyValue::Text("1".to_string())),
        ("y".to_string(), PropertyValue::Null),
        ("z".to_string(), PropertyValue::Binary(b"q".to_vec())),
    ];
    let m = extract_properties(Some(&props));
    assert_eq!(
        m,
        vec![
            ("x".to_string(), "1".to_string()),
            ("y".to_string(), String::new()),
            ("z".to_string(), "q".to_string()),
        ]
    );
    assert!(extract_properties(None).is_empty());
}

#[test]
fn annotations_only_non_empty_objects() {
    let entries = || vec![("k".to_string(), JsonValue::Text("v".to_string()))];
    assert_eq!(annotations_to_map(Some(JsonValue::Object(entries()))), Some(entries()));
    assert_eq!(annotations_to_map(Some(JsonValue::Object(vec![]))), None);
    assert_eq!(annotations_to_map(Some(JsonValue::Array(vec![JsonValue::Null]))), None);
    assert_eq!(annotations_to_map(Some(JsonValue::Null)), None);
    assert_eq!(annotations_to_map(None), None);
}

#[test]
fn settle_mode_names() {
    assert_eq!(settle_mode_name(&SettleMode::First), "First");
    assert_eq!(settle_mode_name(&SettleMode::Second), "Second");
}

#[test]
fn delivery_without_optional_sections() {
    let d = DeliveryFields {
        delivery_id: 0,
        delivery_tag: vec![],
        message_format: None,
        rcv_settle_mode: None,
        handle: 9,
        body: BodySection::Empty,
        header: None,
        delivery_annotations: None,
        message_annotations: None,
        footer: None,
        properties: None,
        application_properties: None,
    };
    let data = delivery_to_data(d);
    assert_eq!(data.delivery_id, 0);
    assert!(data.message_format.is_none());
    assert!(data.rcv_settle_mode.is_none());
    assert!(data.header.is_none());
    assert!(data.footer.is_none());
    assert!(data.application_properties.is_empty());
    assert!(data.body.is_empty());
    assert_eq!(data.link_output_handle, 9);
}

#[test]
fn delivery_with_annotations_and_properties() {
    let ann = || JsonValue::Object(vec![("x-opt".to_string(), JsonValue::Int(-3))]);
    let d = DeliveryFields {
        delivery_id: 12,
        delivery_tag: vec![1, 2],
        message_format: Some(7),
        rcv_settle_mode: Some(SettleMode::First),
        handle: 1,
        body: BodySection::Data(vec![vec![5], vec![6]]),
        header: Some(header(Some(1))),
        delivery_annotations: Some(ann()),
        message_annotations: None,
        footer: Some(ann()),
        properties: None,
        application_properties: Some(vec![("a".to_string(), PropertyValue::Symbol("s".to_string()))]),
    };
    let data = delivery_to_data(d);
    assert_eq!(data.delivery_id, 12);
    assert_eq!(data.delivery_tag, vec![1, 2]);
    assert_eq!(data.message_format, Some(7));
    assert_eq!(data.rcv_settle_mode.as_deref(), Some("First"));
    assert_eq!(data.body, vec![5, 6]);
    assert_eq!(data.header.unwrap().len(), 5);
    assert_eq!(data.delivery_annotations, Some(vec![("x-opt".to_string(), JsonValue::Int(-3))]));
    assert!(data.message_annotations.is_none());
    assert_eq!(data.footer, Some(vec![("x-opt".to_string(), JsonValue::Int(-3))]));
    assert_eq!(data.application_properties, vec![("a".to_string(), "s".to_string())]);
}

#[test]
fn valid_utf8_binary_property_is_its_text() {
    assert_eq!(simple_value_to_string(&PropertyValue::Binary(b"hi".to_vec())), "hi");
    assert_eq!(simple_value_to_string(&PropertyValue::Binary("ключ".as_bytes().to_vec())), "ключ");
}

#[test]
fn header_keys_are_all_different() {
    let m = header_to_json(&header(Some(5)));
    let mut keys: Vec<&String> = m.iter().map(|e| &e.0).collect();
    keys.sort();
    keys.dedup();
    assert_eq!(keys.len(), 5);
}
