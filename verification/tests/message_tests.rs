use pyesb_amqp::conversion::{
    delivery_to_data, BodySection, DeliveryFields, HeaderFields, MessageData, PropertyValue,
    SettleMode,
};
use pyesb_amqp::message::{JsonValue, MessageIdValue, MessageProperties, PropertyItem};
use pyesb_amqp::text::{decimal_string, push_decimal_i64};
use pyesb_amqp::PyAmqpMessage;

fn empty_properties() -> MessageProperties {
    MessageProperties {
        message_id: None,
        user_id: None,
        to: None,
        subject: None,
        reply_to: None,
        correlation_id: None,
        content_type: None,
        content_encoding: None,
        absolute_expiry_time: None,
        creation_time: None,
        group_id: None,
        group_sequence: None,
        reply_to_group_id: None,
    }
}

fn message(delivery_id: i64, tag: Vec<u8>, body: Vec<u8>, properties: Option<MessageProperties>) -> PyAmqpMessage {
    PyAmqpMessage {
        delivery_id,
        delivery_tag: tag,
        message_format: None,
        rcv_settle_mode: None,
        link_output_handle: 0,
        header: None,
        delivery_annotations: None,
        message_annotations: None,
        properties,
        application_properties: None,
        body,
        footer: None,
    }
}

fn keys(entries: &[(String, PropertyItem)]) -> Vec<String> {
    entries.iter().map(|e| e.0.clone()).collect()
}

#[test]
fn repr_shows_id_tag_in_hex_and_body_length() {
    let m = message(7, vec![0x01, 0xab, 0xff], vec![1, 2, 3, 4, 5], None);
    assert_eq!(m.__repr__(), "AmqpMessage(delivery_id=7, delivery_tag=01abff, body_len=5)");
}

#[test]
fn repr_of_empty_tag_and_body() {
    let m = message(0, vec![], vec![], None);
    assert_eq!(m.__repr__(), "AmqpMessage(delivery_id=0, delivery_tag=, body_len=0)");
}

#[test]
fn repr_of_negative_and_extreme_ids() {
    let m = message(-42, vec![0x10], vec![0], None);
    assert_eq!(m.__repr__(), "AmqpMessage(delivery_id=-42, delivery_tag=10, body_len=1)");
    let m = message(i64::MIN, vec![], vec![], None);
    assert_eq!(
        m.__repr__(),
        "AmqpMessage(delivery_id=-9223372036854775808, delivery_tag=, body_len=0)"
    );
    let m = message(i64::MAX, vec![], vec![], None);
    assert_eq!(
        m.__repr__(),
        "AmqpMessage(delivery_id=9223372036854775807, delivery_tag=, body_len=0)"
    );
}

#[test]
fn decimal_rendering() {
    assert_eq!(decimal_string(0), "0");
    assert_eq!(decimal_string(9), "9");
    assert_eq!(decimal_string(10), "10");
    assert_eq!(decimal_string(6698), "6698");
    assert_eq!(decimal_string(u64::MAX), "18446744073709551615");
    let mut s = String::from("x=");
    push_decimal_i64(&mut s, -1);
    assert_eq!(s, "x=-1");
}

#[test]
fn properties_absent_gives_none() {
    let m = message(1, vec![], vec![], None);
    assert!(m.properties().is_none());
}

#[test]
fn properties_empty_section_gives_empty_dict() {
    let m = message(1, vec![], vec![], Some(empty_properties()));
    assert_eq!(m.properties().unwrap().len(), 0);
}

#[test]
fn properties_all_fields_in_section_order() {
    let p = MessageProperties {
        message_id: Some(MessageIdValue::Ulong(99)),
        user_id: Some(vec![1, 2]),
        to: Some("queue-a".to_string()),
        subject: Some("subj".to_string()),
        reply_to: Some("queue-b".to_string()),
        correlation_id: Some(MessageIdValue::Text("corr".to_string())),
        content_type: Some("application/json".to_string()),
        content_encoding: Some("gzip".to_string()),
        absolute_expiry_time: Some(-5),
        creation_time: Some(1_700_000_000_000),
        group_id: Some("g".to_string()),
        group_sequence: Some(3),
        reply_to_group_id: Some("rg".to_string()),
    };
    let m = message(1, vec![], vec![], Some(p));
    let entries = m.properties().unwrap();
    assert_eq!(
        keys(&entries),
        vec![
            "message_id", "user_id", "to", "subject", "reply_to", "correlation_id",
            "content_type", "content_encoding", "absolute_expiry_time", "creation_time",
            "group_id", "group_sequence", "reply_to_group_id",
        ]
    );
    assert!(matches!(entries[0].1, PropertyItem::UInt(99)));
    assert!(matches!(&entries[1].1, PropertyItem::Bytes(b) if b == &vec![1u8, 2]));
    assert!(matches!(&entries[2].1, PropertyItem::Text(s) if s == "queue-a"));
    assert!(matches!(&entries[5].1, PropertyItem::Text(s) if s == "corr"));
    assert!(matches!(entries[8].1, PropertyItem::Int(-5)));
    assert!(matches!(entries[9].1, PropertyItem::Int(1_700_000_000_000)));
    assert!(matches!(entries[11].1, PropertyItem::UInt(3)));
    assert!(matches!(&entries[12].1, PropertyItem::Text(s) if s == "rg"));
}

#[test]
fn properties_leave_out_absent_fields() {
    let mut p = empty_properties();
    p.correlation_id = Some(MessageIdValue::Uuid(vec![7; 16]));
    p.group_sequence = Some(0);
    let m = message(1, vec![], vec![], Some(p));
    let entries = m.properties().unwrap();
    assert_eq!(keys(&entries), vec!["correlation_id", "group_sequence"]);
    assert!(matches!(&entries[0].1, PropertyItem::Bytes(b) if b == &vec![7u8; 16]));
    assert!(matches!(entries[1].1, PropertyItem::UInt(0)));
}

#[test]
fn message_id_binary_is_bytes() {
    let mut p = empty_properties();
    p.message_id = Some(MessageIdValue::Binary(vec![9, 8]));
    let entries = message(1, vec![], vec![], Some(p)).properties().unwrap();
    assert!(matches!(&entries[0].1, PropertyItem::Bytes(b) if b == &vec![9u8, 8]));
}

#[test]
fn message_from_data_always_has_application_properties() {
    let data = MessageData {
        delivery_id: 5,
        delivery_tag: vec![1],
        message_format: Some(0),
        rcv_settle_mode: None,
        link_output_handle: 2,
        header: None,
        delivery_annotations: None,
        message_annotations: None,
        properties: None,
        application_properties: vec![],
        body: vec![3],
        footer: None,
    };
    let m = PyAmqpMessage::from(data);
    assert_eq!(m.application_properties, Some(vec![]));
    assert_eq!(m.delivery_id, 5);
    assert_eq!(m.delivery_tag, vec![1]);
    assert_eq!(m.message_format, Some(0));
    assert_eq!(m.link_output_handle, 2);
    assert_eq!(m.body, vec![3]);
}

#[test]
fn delivery_becomes_message() {
    let d = DeliveryFields {
        delivery_id: 4_000_000_000,
        delivery_tag: vec![0xde, 0xad],
        message_format: Some(0),
        rcv_settle_mode: Some(SettleMode::Second),
        handle: 3,
        body: BodySection::Text("hi".to_string()),
        header: Some(HeaderFields {
            durable: true,
            priority: 4,
            ttl: None,
            first_acquirer: false,
            delivery_count: 1,
        }),
        delivery_annotations: None,
        message_annotations: Some(JsonValue::Object(vec![])),
        footer: None,
        properties: None,
        application_properties: Some(vec![("k".to_string(), PropertyValue::Null)]),
    };
    let m = PyAmqpMessage::from(delivery_to_data(d));
    assert_eq!(m.delivery_id, 4_000_000_000);
    assert_eq!(m.rcv_settle_mode.as_deref(), Some("Second"));
    assert_eq!(m.body, b"hi".to_vec());
    assert_eq!(m.link_output_handle, 3);
    assert!(m.message_annotations.is_none());
    assert_eq!(m.header.as_ref().unwrap().len(), 4);
    assert_eq!(m.application_properties, Some(vec![("k".to_string(), String::new())]));
    assert_eq!(
        m.__repr__(),
        "AmqpMessage(delivery_id=4000000000, delivery_tag=dead, body_len=2)"
    );
}

#[test]
fn string_map_as_json_text() {
    let m = message(1, vec![], vec![], None);
    let map = Some(vec![("a".to_string(), "1".to_string()), ("b\"".to_string(), "x".to_string())]);
    assert_eq!(m.str_map(&map).unwrap(), "{\"a\":\"1\",\"b\\\"\":\"x\"}");
    assert_eq!(m.str_map(&Some(vec![])).unwrap(), "{}");
    assert!(m.str_map(&None).is_none());
}
