//! The message handed to the user callback, and what its accessors present.
use vstd::prelude::*;

use crate::conversion::text_entries;
use crate::entries::{lemma_lookup_concat, lemma_lookup_single, lookup};
use crate::text::{digits_value, hex_value, lemma_decimal_digits, lemma_decimal_int, lemma_hex_lower, decimal_digits, decimal_int, hex_encode, hex_lower, push_decimal, push_decimal_i64};

verus! {

/// A JSON value as the library carries it.
///
/// Integers that fit an unsigned 64-bit value are `UInt`, other (negative)
/// integers are `Int`; any other number is kept as its JSON text in `Number`.
#[derive(Debug, PartialEq)]
pub enum JsonValue {
    Null,
    Bool(bool),
    UInt(u64),
    Int(i64),
    Number(String),
    Text(String),
    Array(Vec<JsonValue>),
    Object(Vec<(String, JsonValue)>),
}

/// The identifier of a message (`message-id` / `correlation-id`).
#[derive(Debug, Clone, PartialEq)]
pub enum MessageIdValue {
    Ulong(u64),
    /// The sixteen bytes of a UUID.
    Uuid(Vec<u8>),
    Binary(Vec<u8>),
    Text(String),
}

/// The AMQP `properties` section of a message, each field as a plain value.
/// Symbols are held by their text, timestamps by milliseconds since the epoch.
#[derive(Debug, Clone, PartialEq)]
pub struct MessageProperties {
    pub message_id: Option<MessageIdValue>,
    pub user_id: Option<Vec<u8>>,
    pub to: Option<String>,
    pub subject: Option<String>,
    pub reply_to: Option<String>,
    pub correlation_id: Option<MessageIdValue>,
    pub content_type: Option<String>,
    pub content_encoding: Option<String>,
    pub absolute_expiry_time: Option<i64>,
    pub creation_time: Option<i64>,
    pub group_id: Option<String>,
    pub group_sequence: Option<u32>,
    pub reply_to_group_id: Option<String>,
}

/// A value of the dictionary that presents the `properties` section.
#[derive(Debug, Clone, PartialEq)]
pub enum PropertyItem {
    UInt(u64),
    Int(i64),
    Bytes(Vec<u8>),
    Text(String),
}

/// The mathematical value of a [`PropertyItem`].
pub enum PropertyItemView {
    UInt(u64),
    Int(i64),
    Bytes(Seq<u8>),
    Text(Seq<char>),
}

impl View for PropertyItem {
    type V = PropertyItemView;

    open spec fn view(&self) -> PropertyItemView {
        match self {
            PropertyItem::UInt(n) => PropertyItemView::UInt(*n),
            PropertyItem::Int(n) => PropertyItemView::Int(*n),
            PropertyItem::Bytes(b) => PropertyItemView::Bytes(b@),
            PropertyItem::Text(s) => PropertyItemView::Text(s@),
        }
    }
}

/// The keys and values of a list of dictionary entries.
pub open spec fn items_view(s: Seq<(String, PropertyItem)>) -> Seq<(Seq<char>, PropertyItemView)> {
    s.map_values(|e: (String, PropertyItem)| (e.0@, e.1@))
}

/// The value under which a message identifier is presented.
pub open spec fn id_item(id: MessageIdValue) -> PropertyItemView {
    match id {
        MessageIdValue::Ulong(n) => PropertyItemView::UInt(n),
        MessageIdValue::Uuid(b) => PropertyItemView::Bytes(b@),
        MessageIdValue::Binary(b) => PropertyItemView::Bytes(b@),
        MessageIdValue::Text(s) => PropertyItemView::Text(s@),
    }
}

/// One entry `key: value` when the value is present, no entry otherwise.
pub open spec fn opt_entry(key: Seq<char>, value: Option<PropertyItemView>) -> Seq<(Seq<char>, PropertyItemView)> {
    match value {
        Some(v) => seq![(key, v)],
        None => seq![],
    }
}

pub open spec fn opt_id(o: Option<MessageIdValue>) -> Option<PropertyItemView> {
    match o {
        Some(id) => Some(id_item(id)),
        None => None,
    }
}

pub open spec fn opt_text(o: Option<String>) -> Option<PropertyItemView> {
    match o {
        Some(s) => Some(PropertyItemView::Text(s@)),
        None => None,
    }
}

pub open spec fn opt_bytes(o: Option<Vec<u8>>) -> Option<PropertyItemView> {
    match o {
        Some(b) => Some(PropertyItemView::Bytes(b@)),
        None => None,
    }
}

pub open spec fn opt_millis(o: Option<i64>) -> Option<PropertyItemView> {
    match o {
        Some(t) => Some(PropertyItemView::Int(t)),
        None => None,
    }
}

pub open spec fn opt_uint(o: Option<u32>) -> Option<PropertyItemView> {
    match o {
        Some(n) => Some(PropertyItemView::UInt(n as u64)),
        None => None,
    }
}

/// The dictionary that presents a `properties` section: one entry per
/// present field, in the order of the AMQP section, absent fields left out.
pub open spec fn properties_entries(p: MessageProperties) -> Seq<(Seq<char>, PropertyItemView)> {
    opt_entry("message_id"@, opt_id(p.message_id))
    + opt_entry("user_id"@, opt_bytes(p.user_id))
    + opt_entry("to"@, opt_text(p.to))
    + opt_entry("subject"@, opt_text(p.subject))
    + opt_entry("reply_to"@, opt_text(p.reply_to))
    + opt_entry("correlation_id"@, opt_id(p.correlation_id))
    + opt_entry("content_type"@, opt_text(p.content_type))
    + opt_entry("content_encoding"@, opt_text(p.content_encoding))
    + opt_entry("absolute_expiry_time"@, opt_millis(p.absolute_expiry_time))
    + opt_entry("creation_time"@, opt_millis(p.creation_time))
    + opt_entry("group_id"@, opt_text(p.group_id))
    + opt_entry("group_sequence"@, opt_uint(p.group_sequence))
    + opt_entry("reply_to_group_id"@, opt_text(p.reply_to_group_id))
}

/// Looking a key up in a single optional entry.
proof fn lemma_lookup_opt_entry(k: Seq<char>, v: Option<PropertyItemView>, key: Seq<char>)
    ensures
        lookup(opt_entry(k, v), key) == if k == key {
            v
        } else {
            None::<PropertyItemView>
        },
{
    match v {
        Some(x) => lemma_lookup_single(k, x, key),
        None => lemma_lookup_single(k, PropertyItemView::UInt(0), key),
    }
}

/// The names of the fields of a properties section are all different.
proof fn lemma_property_keys_differ()
    ensures
        "message_id"@ != "user_id"@,
        "message_id"@ != "to"@,
        "message_id"@ != "subject"@,
        "message_id"@ != "reply_to"@,
        "message_id"@ != "correlation_id"@,
        "message_id"@ != "content_type"@,
        "message_id"@ != "content_encoding"@,
        "message_id"@ != "absolute_expiry_time"@,
        "message_id"@ != "creation_time"@,
        "message_id"@ != "group_id"@,
        "message_id"@ != "group_sequence"@,
        "message_id"@ != "reply_to_group_id"@,
        "user_id"@ != "to"@,
        "user_id"@ != "subject"@,
        "user_id"@ != "reply_to"@,
        "user_id"@ != "correlation_id"@,
        "user_id"@ != "content_type"@,
        "user_id"@ != "content_encoding"@,
        "user_id"@ != "absolute_expiry_time"@,
        "user_id"@ != "creation_time"@,
        "user_id"@ != "group_id"@,
        "user_id"@ != "group_sequence"@,
        "user_id"@ != "reply_to_group_id"@,
        "to"@ != "subject"@,
        "to"@ != "reply_to"@,
        "to"@ != "correlation_id"@,
        "to"@ != "content_type"@,
        "to"@ != "content_encoding"@,
        "to"@ != "absolute_expiry_time"@,
        "to"@ != "creation_time"@,
        "to"@ != "group_id"@,
        "to"@ != "group_sequence"@,
        "to"@ != "reply_to_group_id"@,
        "subject"@ != "reply_to"@,
        "subject"@ != "correlation_id"@,
        "subject"@ != "content_type"@,
        "subject"@ != "content_encoding"@,
        "subject"@ != "absolute_expiry_time"@,
        "subject"@ != "creation_time"@,
        "subject"@ != "group_id"@,
        "subject"@ != "group_sequence"@,
        "subject"@ != "reply_to_group_id"@,
        "reply_to"@ != "correlation_id"@,
        "reply_to"@ != "content_type"@,
        "reply_to"@ != "content_encoding"@,
        "reply_to"@ != "absolute_expiry_time"@,
        "reply_to"@ != "creation_time"@,
        "reply_to"@ != "group_id"@,
        "reply_to"@ != "group_sequence"@,
        "reply_to"@ != "reply_to_group_id"@,
        "correlation_id"@ != "content_type"@,
        "correlation_id"@ != "content_encoding"@,
        "correlation_id"@ != "absolute_expiry_time"@,
        "correlation_id"@ != "creation_time"@,
        "correlation_id"@ != "group_id"@,
        "correlation_id"@ != "group_sequence"@,
        "correlation_id"@ != "reply_to_group_id"@,
        "content_type"@ != "content_encoding"@,
        "content_type"@ != "absolute_expiry_time"@,
        "content_type"@ != "creation_time"@,
        "content_type"@ != "group_id"@,
        "content_type"@ != "group_sequence"@,
        "content_type"@ != "reply_to_group_id"@,
        "content_encoding"@ != "absolute_expiry_time"@,
        "content_encoding"@ != "creation_time"@,
        "content_encoding"@ != "group_id"@,
        "content_encoding"@ != "group_sequence"@,
        "content_encoding"@ != "reply_to_group_id"@,
        "absolute_expiry_time"@ != "creation_time"@,
        "absolute_expiry_time"@ != "group_id"@,
        "absolute_expiry_time"@ != "group_sequence"@,
        "absolute_expiry_time"@ != "reply_to_group_id"@,
        "creation_time"@ != "group_id"@,
        "creation_time"@ != "group_sequence"@,
        "creation_time"@ != "reply_to_group_id"@,
        "group_id"@ != "group_sequence"@,
        "group_id"@ != "reply_to_group_id"@,
        "group_sequence"@ != "reply_to_group_id"@,
{
    reveal_strlit("message_id");
    reveal_strlit("user_id");
    reveal_strlit("to");
    reveal_strlit("subject");
    reveal_strlit("reply_to");
    reveal_strlit("correlation_id");
    reveal_strlit("content_type");
    reveal_strlit("content_encoding");
    reveal_strlit("absolute_expiry_time");
    reveal_strlit("creation_time");
    reveal_strlit("group_id");
    reveal_strlit("group_sequence");
    reveal_strlit("reply_to_group_id");
    assert("message_id"@.len() != "user_id"@.len());
    assert("message_id"@.len() != "to"@.len());
    assert("message_id"@.len() != "subject"@.len());
    assert("message_id"@.len() != "reply_to"@.len());
    assert("message_id"@.len() != "correlation_id"@.len());
    assert("message_id"@.len() != "content_type"@.len());
    assert("message_id"@.len() != "content_encoding"@.len());
    assert("message_id"@.len() != "absolute_expiry_time"@.len());
    assert("message_id"@.len() != "creation_time"@.len());
    assert("message_id"@.len() != "group_id"@.len());
    assert("message_id"@.len() != "group_sequence"@.len());
    assert("message_id"@.len() != "reply_to_group_id"@.len());
    assert("user_id"@.len() != "to"@.len());
    assert("user_id"@[0] != "subject"@[0]);
    assert("user_id"@.len() != "reply_to"@.len());
    assert("user_id"@.len() != "correlation_id"@.len());
    assert("user_id"@.len() != "content_type"@.len());
    assert("user_id"@.len() != "content_encoding"@.len());
    assert("user_id"@.len() != "absolute_expiry_time"@.len());
    assert("user_id"@.len() != "creation_time"@.len());
    assert("user_id"@.len() != "group_id"@.len());
    assert("user_id"@.len() != "group_sequence"@.len());
    assert("user_id"@.len() != "reply_to_group_id"@.len());
    assert("to"@.len() != "subject"@.len());
    assert("to"@.len() != "reply_to"@.len());
    assert("to"@.len() != "correlation_id"@.len());
    assert("to"@.len() != "content_type"@.len());
    assert("to"@.len() != "content_encoding"@.len());
    assert("to"@.len() != "absolute_expiry_time"@.len());
    assert("to"@.len() != "creation_time"@.len());
    assert("to"@.len() != "group_id"@.len());
    assert("to"@.len() != "group_sequence"@.len());
    assert("to"@.len() != "reply_to_group_id"@.len());
    assert("subject"@.len() != "reply_to"@.len());
    assert("subject"@.len() != "correlation_id"@.len());
    assert("subject"@.len() != "content_type"@.len());
    assert("subject"@.len() != "content_encoding"@.len());
    assert("subject"@.len() != "absolute_expiry_time"@.len());
    assert("subject"@.len() != "creation_time"@.len());
    assert("subject"@.len() != "group_id"@.len());
    assert("subject"@.len() != "group_sequence"@.len());
    assert("subject"@.len() != "reply_to_group_id"@.len());
    assert("reply_to"@.len() != "correlation_id"@.len());
    assert("reply_to"@.len() != "content_type"@.len());
    assert("reply_to"@.len() != "content_encoding"@.len());
    assert("reply_to"@.len() != "absolute_expiry_time"@.len());
    assert("reply_to"@.len() != "creation_time"@.len());
    assert("reply_to"@[0] != "group_id"@[0]);
    assert("reply_to"@.len() != "group_sequence"@.len());
    assert("reply_to"@.len() != "reply_to_group_id"@.len());
    assert("correlation_id"@.len() != "content_type"@.len());
    assert("correlation_id"@.len() != "content_encoding"@.len());
    assert("correlation_id"@.len() != "absolute_expiry_time"@.len());
    assert("correlation_id"@.len() != "creation_time"@.len());
    assert("correlation_id"@.len() != "group_id"@.len());
    assert("correlation_id"@[0] != "group_sequence"@[0]);
    assert("correlation_id"@.len() != "reply_to_group_id"@.len());
    assert("content_type"@.len() != "content_encoding"@.len());
    assert("content_type"@.len() != "absolute_expiry_time"@.len());
    assert("content_type"@.len() != "creation_time"@.len());
    assert("content_type"@.len() != "group_id"@.len());
    assert("content_type"@.len() != "group_sequence"@.len());
    assert("content_type"@.len() != "reply_to_group_id"@.len());
    assert("content_encoding"@.len() != "absolute_expiry_time"@.len());
    assert("content_encoding"@.len() != "creation_time"@.len());
    assert("content_encoding"@.len() != "group_id"@.len());
    assert("content_encoding"@.len() != "group_sequence"@.len());
    assert("content_encoding"@.len() != "reply_to_group_id"@.len());
    assert("absolute_expiry_time"@.len() != "creation_time"@.len());
    assert("absolute_expiry_time"@.len() != "group_id"@.len());
    assert("absolute_expiry_time"@.len() != "group_sequence"@.len());
    assert("absolute_expiry_time"@.len() != "reply_to_group_id"@.len());
    assert("creation_time"@.len() != "group_id"@.len());
    assert("creation_time"@.len() != "group_sequence"@.len());
    assert("creation_time"@.len() != "reply_to_group_id"@.len());
    assert("group_id"@.len() != "group_sequence"@.len());
    assert("group_id"@.len() != "reply_to_group_id"@.len());
    assert("group_sequence"@.len() != "reply_to_group_id"@.len());
}

/// The dictionary of a properties section, looked up at the name of one of
/// its fields, gives that field's entry value.
proof fn lemma_properties_lookup_at(p: MessageProperties, j: int)
    requires
        0 <= j < 13,
    ensures
        j == 0 ==> lookup(properties_entries(p), "message_id"@) == opt_id(p.message_id),
        j == 1 ==> lookup(properties_entries(p), "user_id"@) == opt_bytes(p.user_id),
        j == 2 ==> lookup(properties_entries(p), "to"@) == opt_text(p.to),
        j == 3 ==> lookup(properties_entries(p), "subject"@) == opt_text(p.subject),
        j == 4 ==> lookup(properties_entries(p), "reply_to"@) == opt_text(p.reply_to),
        j == 5 ==> lookup(properties_entries(p), "correlation_id"@) == opt_id(p.correlation_id),
        j == 6 ==> lookup(properties_entries(p), "content_type"@) == opt_text(p.content_type),
        j == 7 ==> lookup(properties_entries(p), "content_encoding"@) == opt_text(p.content_encoding),
        j == 8 ==> lookup(properties_entries(p), "absolute_expiry_time"@) == opt_millis(p.absolute_expiry_time),
        j == 9 ==> lookup(properties_entries(p), "creation_time"@) == opt_millis(p.creation_time),
        j == 10 ==> lookup(properties_entries(p), "group_id"@) == opt_text(p.group_id),
        j == 11 ==> lookup(properties_entries(p), "group_sequence"@) == opt_uint(p.group_sequence),
        j == 12 ==> lookup(properties_entries(p), "reply_to_group_id"@) == opt_text(p.reply_to_group_id),
{
    lemma_property_keys_differ();
    let key = if j == 0 { "message_id"@ } else if j == 1 { "user_id"@ } else if j == 2 { "to"@ } else if j == 3 { "subject"@ } else if j == 4 { "reply_to"@ } else if j == 5 { "correlation_id"@ } else if j == 6 { "content_type"@ } else if j == 7 { "content_encoding"@ } else if j == 8 { "absolute_expiry_time"@ } else if j == 9 { "creation_time"@ } else if j == 10 { "group_id"@ } else if j == 11 { "group_sequence"@ } else { "reply_to_group_id"@ };
    let e0 = opt_entry("message_id"@, opt_id(p.message_id));
    lemma_lookup_opt_entry("message_id"@, opt_id(p.message_id), key);
    let e1 = opt_entry("user_id"@, opt_bytes(p.user_id));
    lemma_lookup_opt_entry("user_id"@, opt_bytes(p.user_id), key);
    let e2 = opt_entry("to"@, opt_text(p.to));
    lemma_lookup_opt_entry("to"@, opt_text(p.to), key);
    let e3 = opt_entry("subject"@, opt_text(p.subject));
    lemma_lookup_opt_entry("subject"@, opt_text(p.subject), key);
    let e4 = opt_entry("reply_to"@, opt_text(p.reply_to));
    lemma_lookup_opt_entry("reply_to"@, opt_text(p.reply_to), key);
    let e5 = opt_entry("correlation_id"@, opt_id(p.correlation_id));
    lemma_lookup_opt_entry("correlation_id"@, opt_id(p.correlation_id), key);
    let e6 = opt_entry("content_type"@, opt_text(p.content_type));
    lemma_lookup_opt_entry("content_type"@, opt_text(p.content_type), key);
    let e7 = opt_entry("content_encoding"@, opt_text(p.content_encoding));
    lemma_lookup_opt_entry("content_encoding"@, opt_text(p.content_encoding), key);
    let e8 = opt_entry("absolute_expiry_time"@, opt_millis(p.absolute_expiry_time));
    lemma_lookup_opt_entry("absolute_expiry_time"@, opt_millis(p.absolute_expiry_time), key);
    let e9 = opt_entry("creation_time"@, opt_millis(p.creation_time));
    lemma_lookup_opt_entry("creation_time"@, opt_millis(p.creation_time), key);
    let e10 = opt_entry("group_id"@, opt_text(p.group_id));
    lemma_lookup_opt_entry("group_id"@, opt_text(p.group_id), key);
    let e11 = opt_entry("group_sequence"@, opt_uint(p.group_sequence));
    lemma_lookup_opt_entry("group_sequence"@, opt_uint(p.group_sequence), key);
    let e12 = opt_entry("reply_to_group_id"@, opt_text(p.reply_to_group_id));
    lemma_lookup_opt_entry("reply_to_group_id"@, opt_text(p.reply_to_group_id), key);
    lemma_lookup_concat(e0, e1, key);
    lemma_lookup_concat(e0 + e1, e2, key);
    lemma_lookup_concat(e0 + e1 + e2, e3, key);
    lemma_lookup_concat(e0 + e1 + e2 + e3, e4, key);
    lemma_lookup_concat(e0 + e1 + e2 + e3 + e4, e5, key);
    lemma_lookup_concat(e0 + e1 + e2 + e3 + e4 + e5, e6, key);
    lemma_lookup_concat(e0 + e1 + e2 + e3 + e4 + e5 + e6, e7, key);
    lemma_lookup_concat(e0 + e1 + e2 + e3 + e4 + e5 + e6 + e7, e8, key);
    lemma_lookup_concat(e0 + e1 + e2 + e3 + e4 + e5 + e6 + e7 + e8, e9, key);
    lemma_lookup_concat(e0 + e1 + e2 + e3 + e4 + e5 + e6 + e7 + e8 + e9, e10, key);
    lemma_lookup_concat(e0 + e1 + e2 + e3 + e4 + e5 + e6 + e7 + e8 + e9 + e10, e11, key);
    lemma_lookup_concat(e0 + e1 + e2 + e3 + e4 + e5 + e6 + e7 + e8 + e9 + e10 + e11, e12, key);
    assert(properties_entries(p) == e0 + e1 + e2 + e3 + e4 + e5 + e6 + e7 + e8 + e9 + e10 + e11 + e12);
}

/// Each field of a properties section appears in its dictionary under its
/// own name exactly when it is present, holding that field's value: the
/// identifiers as integers, bytes or text, the user id as bytes, the
/// addresses, subject, content type and encoding and group ids as text, the
/// timestamps as integer milliseconds and the group sequence as an integer.
pub proof fn lemma_properties_by_key(p: MessageProperties)
    ensures
        lookup(properties_entries(p), "message_id"@) == match p.message_id { Some(MessageIdValue::Ulong(n)) => Some(PropertyItemView::UInt(n)), Some(MessageIdValue::Uuid(b)) => Some(PropertyItemView::Bytes(b@)), Some(MessageIdValue::Binary(b)) => Some(PropertyItemView::Bytes(b@)), Some(MessageIdValue::Text(s)) => Some(PropertyItemView::Text(s@)), None => None },
        lookup(properties_entries(p), "user_id"@) == match p.user_id { Some(b) => Some(PropertyItemView::Bytes(b@)), None => None },
        lookup(properties_entries(p), "to"@) == match p.to { Some(s) => Some(PropertyItemView::Text(s@)), None => None },
        lookup(properties_entries(p), "subject"@) == match p.subject { Some(s) => Some(PropertyItemView::Text(s@)), None => None },
        lookup(properties_entries(p), "reply_to"@) == match p.reply_to { Some(s) => Some(PropertyItemView::Text(s@)), None => None },
        lookup(properties_entries(p), "correlation_id"@) == match p.correlation_id { Some(MessageIdValue::Ulong(n)) => Some(PropertyItemView::UInt(n)), Some(MessageIdValue::Uuid(b)) => Some(PropertyItemView::Bytes(b@)), Some(MessageIdValue::Binary(b)) => Some(PropertyItemView::Bytes(b@)), Some(MessageIdValue::Text(s)) => Some(PropertyItemView::Text(s@)), None => None },
        lookup(properties_entries(p), "content_type"@) == match p.content_type { Some(s) => Some(PropertyItemView::Text(s@)), None => None },
        lookup(properties_entries(p), "content_encoding"@) == match p.content_encoding { Some(s) => Some(PropertyItemView::Text(s@)), None => None },
        lookup(properties_entries(p), "absolute_expiry_time"@) == match p.absolute_expiry_time { Some(t) => Some(PropertyItemView::Int(t)), None => None },
        lookup(properties_entries(p), "creation_time"@) == match p.creation_time { Some(t) => Some(PropertyItemView::Int(t)), None => None },
        lookup(properties_entries(p), "group_id"@) == match p.group_id { Some(s) => Some(PropertyItemView::Text(s@)), None => None },
        lookup(properties_entries(p), "group_sequence"@) == match p.group_sequence { Some(n) => Some(PropertyItemView::UInt(n as u64)), None => None },
        lookup(properties_entries(p), "reply_to_group_id"@) == match p.reply_to_group_id { Some(s) => Some(PropertyItemView::Text(s@)), None => None },
{
    lemma_properties_lookup_at(p, 0);
    lemma_properties_lookup_at(p, 1);
    lemma_properties_lookup_at(p, 2);
    lemma_properties_lookup_at(p, 3);
    lemma_properties_lookup_at(p, 4);
    lemma_properties_lookup_at(p, 5);
    lemma_properties_lookup_at(p, 6);
    lemma_properties_lookup_at(p, 7);
    lemma_properties_lookup_at(p, 8);
    lemma_properties_lookup_at(p, 9);
    lemma_properties_lookup_at(p, 10);
    lemma_properties_lookup_at(p, 11);
    lemma_properties_lookup_at(p, 12);
}

/// A copy of a byte vector.
fn copy_bytes(v: &Vec<u8>) -> (r: Vec<u8>)
    ensures
        r@ == v@,
{
    let mut r: Vec<u8> = Vec::new();
    let mut i: usize = 0;
    while i < v.len()
        invariant
            i <= v.len(),
            r@ == v@.subrange(0, i as int),
        decreases v.len() - i,
    {
        r.push(v[i]);
        i = i + 1;
        assert(r@ =~= v@.subrange(0, i as int));
    }
    assert(v@.subrange(0, v.len() as int) =~= v@);
    r
}

fn id_to_item(id: &MessageIdValue) -> (r: PropertyItem)
    ensures
        r@ == id_item(*id),
{
    match id {
        MessageIdValue::Ulong(n) => PropertyItem::UInt(*n),
        MessageIdValue::Uuid(b) => PropertyItem::Bytes(copy_bytes(b)),
        MessageIdValue::Binary(b) => PropertyItem::Bytes(copy_bytes(b)),
        MessageIdValue::Text(s) => PropertyItem::Text(s.clone()),
    }
}

/// Appends the entry `key: value` when a value is given.
fn push_entry(out: &mut Vec<(String, PropertyItem)>, key: &str, value: Option<PropertyItem>)
    ensures
        items_view(final(out)@) == items_view(old(out)@) + opt_entry(
            key@,
            match value {
                Some(v) => Some(v@),
                None => None,
            },
        ),
{
    match value {
        Some(v) => {
            let ghost old_items = old(out)@;
            out.push((String::from_str(key), v));
            assert(items_view(out@) =~= items_view(old_items) + seq![(key@, v@)]);
        },
        None => {
            assert(items_view(out@) =~= items_view(out@) + Seq::<(Seq<char>, PropertyItemView)>::empty());
        },
    }
}

fn text_item(o: &Option<String>) -> (r: Option<PropertyItem>)
    ensures
        match r {
            Some(v) => Some(v@),
            None => None,
        } == opt_text(*o),
{
    match o {
        Some(s) => Some(PropertyItem::Text(s.clone())),
        None => None,
    }
}

fn id_opt_item(o: &Option<MessageIdValue>) -> (r: Option<PropertyItem>)
    ensures
        match r {
            Some(v) => Some(v@),
            None => None,
        } == opt_id(*o),
{
    match o {
        Some(id) => Some(id_to_item(id)),
        None => None,
    }
}

fn millis_item(o: Option<i64>) -> (r: Option<PropertyItem>)
    ensures
        match r {
            Some(v) => Some(v@),
            None => None,
        } == opt_millis(o),
{
    match o {
        Some(t) => Some(PropertyItem::Int(t)),
        None => None,
    }
}

/// What `serde_json::to_string` gives for a JSON object whose values are all
/// strings, built from the given entries.
pub uninterp spec fn json_object_text(entries: Seq<(Seq<char>, Seq<char>)>) -> Seq<char>;

/// `serde_json::to_string` of a `serde_json::Map` holding each key with its
/// value as a JSON string. Claimed: the text is `json_object_text` of the
/// entries; serialising string keys and string values does not fail, so the
/// empty fallback is never taken. Left unsaid: the layout of the text (key
/// order, escaping).
#[verifier::external_body]
fn text_entries_to_json(entries: &Vec<(String, String)>) -> (s: String)
    ensures
        s@ == json_object_text(text_entries(entries@)),
{
    let map: serde_json::Map<String, serde_json::Value> = entries
        .iter()
        .map(|(k, v)| (k.clone(), serde_json::Value::String(v.clone())))
        .collect();
    serde_json::to_string(&map).unwrap_or_default()
}

/// The message as the user callback receives it.
#[derive(Debug, PartialEq)]
pub struct PyAmqpMessage {
    pub delivery_id: i64,
    pub delivery_tag: Vec<u8>,
    pub message_format: Option<i64>,
    pub rcv_settle_mode: Option<String>,
    pub link_output_handle: u32,
    pub header: Option<Vec<(String, JsonValue)>>,
    pub delivery_annotations: Option<Vec<(String, JsonValue)>>,
    pub message_annotations: Option<Vec<(String, JsonValue)>>,
    pub properties: Option<MessageProperties>,
    pub application_properties: Option<Vec<(String, String)>>,
    pub body: Vec<u8>,
    pub footer: Option<Vec<(String, JsonValue)>>,
}

/// The text by which a message presents itself:
/// `AmqpMessage(delivery_id=<id>, delivery_tag=<tag in hex>, body_len=<bytes>)`.
pub open spec fn repr_text(delivery_id: i64, delivery_tag: Seq<u8>, body_len: nat) -> Seq<char> {
    "AmqpMessage(delivery_id="@ + decimal_int(delivery_id as int) + ", delivery_tag="@
        + hex_lower(delivery_tag) + ", body_len="@ + decimal_digits(body_len) + ")"@
}

impl PyAmqpMessage {
    /// The entries of the dictionary that presents the `properties` section,
    /// or `None` when the message has no such section.
    pub fn properties(&self) -> (r: Option<Vec<(String, PropertyItem)>>)
        ensures
            r.is_some() == self.properties.is_some(),
            self.properties.is_some() ==> items_view(r->0@) == properties_entries(self.properties->0),
    {
        match &self.properties {
            None => None,
            Some(p) => {
                let mut out: Vec<(String, PropertyItem)> = Vec::new();
                push_entry(&mut out, "message_id", id_opt_item(&p.message_id));
                let user_id = match &p.user_id {
                    Some(b) => Some(PropertyItem::Bytes(copy_bytes(b))),
                    None => None,
                };
                push_entry(&mut out, "user_id", user_id);
                push_entry(&mut out, "to", text_item(&p.to));
                push_entry(&mut out, "subject", text_item(&p.subject));
                push_entry(&mut out, "reply_to", text_item(&p.reply_to));
                push_entry(&mut out, "correlation_id", id_opt_item(&p.correlation_id));
                push_entry(&mut out, "content_type", text_item(&p.content_type));
                push_entry(&mut out, "content_encoding", text_item(&p.content_encoding));
                push_entry(&mut out, "absolute_expiry_time", millis_item(p.absolute_expiry_time));
                push_entry(&mut out, "creation_time", millis_item(p.creation_time));
                push_entry(&mut out, "group_id", text_item(&p.group_id));
                let group_sequence = match p.group_sequence {
                    Some(n) => Some(PropertyItem::UInt(n as u64)),
                    None => None,
                };
                push_entry(&mut out, "group_sequence", group_sequence);
                push_entry(&mut out, "reply_to_group_id", text_item(&p.reply_to_group_id));
                assert(items_view(out@) =~= properties_entries(*p));
                Some(out)
            },
        }
    }

    /// The JSON text of a string map, from which the callback's dictionary is
    /// made; `None` when there is no map.
    pub fn str_map(&self, map: &Option<Vec<(String, String)>>) -> (r: Option<String>)
        ensures
            r.is_some() == map.is_some(),
            map.is_some() ==> r->0@ == json_object_text(text_entries(map->0@)),
    {
        match map {
            Some(entries) => Some(text_entries_to_json(entries)),
            None => None,
        }
    }

    /// The text by which the message presents itself.
    pub fn __repr__(&self) -> (s: String)
        ensures
            s@ == repr_text(self.delivery_id, self.delivery_tag@, self.body@.len()),
    {
        let mut s = String::from_str("AmqpMessage(delivery_id=");
        push_decimal_i64(&mut s, self.delivery_id);
        s.append(", delivery_tag=");
        let tag = hex_encode(self.delivery_tag.as_slice());
        s.append(tag.as_str());
        s.append(", body_len=");
        push_decimal(&mut s, self.body.len() as u64);
        s.append(")");
        assert(s@ =~= repr_text(self.delivery_id, self.delivery_tag@, self.body@.len()));
        s
    }
}

/// The text of a message is `AmqpMessage(delivery_id=`, the delivery id in
/// decimal (after a `-` when negative), `, delivery_tag=`, two hexadecimal
/// digits per tag byte, `, body_len=`, the body length in decimal, and `)`;
/// each number reads back as the value it shows.
pub proof fn lemma_repr_text(delivery_id: i64, tag: Seq<u8>, body_len: nat)
    ensures
        exists|d: Seq<char>, h: Seq<char>, l: Seq<char>|
            {
                &&& repr_text(delivery_id, tag, body_len) == "AmqpMessage(delivery_id="@ + d
                    + ", delivery_tag="@ + h + ", body_len="@ + l + ")"@
                &&& delivery_id < 0 ==> d[0] == '-' && digits_value(d.drop_first()) == -delivery_id
                &&& delivery_id >= 0 ==> digits_value(d) == delivery_id
                &&& h.len() == 2 * tag.len()
                &&& forall|i: int|
                    0 <= i < tag.len() ==> hex_value(#[trigger] h[2 * i]) * 16 + hex_value(
                        h[2 * i + 1],
                    ) == tag[i] as int
                &&& digits_value(l) == body_len
            },
{
    lemma_decimal_int(delivery_id as int);
    lemma_hex_lower(tag);
    lemma_decimal_digits(body_len);
    let d = decimal_int(delivery_id as int);
    let h = hex_lower(tag);
    let l = decimal_digits(body_len);
    assert(repr_text(delivery_id, tag, body_len) == "AmqpMessage(delivery_id="@ + d
        + ", delivery_tag="@ + h + ", body_len="@ + l + ")"@);
}

} // verus!
