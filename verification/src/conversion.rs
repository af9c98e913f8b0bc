//! Conversion of a received delivery into the message handed to the callback.
use vstd::prelude::*;
use vstd::utf8::{decode_utf8, encode_utf8, valid_utf8};

use crate::entries::{lemma_lookup_concat, lemma_lookup_single, lookup};
use crate::message::{JsonValue, MessageProperties, PyAmqpMessage};

verus! {

/// The `header` section of a message.
#[derive(Debug, Clone, PartialEq)]
pub struct HeaderFields {
    pub durable: bool,
    pub priority: u8,
    /// Time to live in milliseconds.
    pub ttl: Option<u32>,
    pub first_acquirer: bool,
    pub delivery_count: u32,
}

/// The body of a message.
#[derive(Debug, Clone, PartialEq)]
pub enum BodySection {
    /// A batch of `data` sections.
    Data(Vec<Vec<u8>>),
    /// An `amqp-value` section holding binary.
    Binary(Vec<u8>),
    /// An `amqp-value` section holding a string.
    Text(String),
    /// An `amqp-value` section holding any other value, with its JSON
    /// encoding, `None` where that encoding failed.
    OtherValue(Option<Vec<u8>>),
    /// A batch of `amqp-sequence` sections, with its JSON encoding,
    /// `None` where that encoding failed.
    Sequence(Option<Vec<u8>>),
    /// No body.
    Empty,
}

/// A value of the `application-properties` section.
#[derive(Debug, Clone, PartialEq)]
pub enum PropertyValue {
    Null,
    Text(String),
    /// A symbol, by its text.
    Symbol(String),
    Binary(Vec<u8>),
    /// Any other value: its JSON text, `None` where that encoding failed,
    /// and its debug rendering.
    Other { json: Option<String>, debug: String },
}

/// The receiver settle mode of a delivery.
#[derive(Debug, Clone, PartialEq)]
pub enum SettleMode {
    First,
    Second,
}

/// What the library reads of a received delivery.
#[derive(Debug, PartialEq)]
pub struct DeliveryFields {
    pub delivery_id: u32,
    pub delivery_tag: Vec<u8>,
    pub message_format: Option<u32>,
    pub rcv_settle_mode: Option<SettleMode>,
    /// The link handle the delivery arrived on.
    pub handle: u32,
    pub body: BodySection,
    pub header: Option<HeaderFields>,
    /// Each annotation section as a JSON value, `None` where the section is
    /// absent or could not be encoded.
    pub delivery_annotations: Option<JsonValue>,
    pub message_annotations: Option<JsonValue>,
    pub footer: Option<JsonValue>,
    pub properties: Option<MessageProperties>,
    pub application_properties: Option<Vec<(String, PropertyValue)>>,
}

/// The plain data extracted from a delivery.
#[derive(Debug, PartialEq)]
pub struct MessageData {
    pub delivery_id: i64,
    pub delivery_tag: Vec<u8>,
    pub message_format: Option<i64>,
    pub rcv_settle_mode: Option<String>,
    pub link_output_handle: u32,
    pub header: Option<Vec<(String, JsonValue)>>,
    pub delivery_annotations: Option<Vec<(String, JsonValue)>>,
    pub message_annotations: Option<Vec<(String, JsonValue)>>,
    pub properties: Option<MessageProperties>,
    pub application_properties: Vec<(String, String)>,
    pub body: Vec<u8>,
    pub footer: Option<Vec<(String, JsonValue)>>,
}

/// The keys (by their text) and values of a JSON object's entries.
pub open spec fn json_entries(s: Seq<(String, JsonValue)>) -> Seq<(Seq<char>, JsonValue)> {
    s.map_values(|e: (String, JsonValue)| (e.0@, e.1))
}

/// The keys and values (both by their text) of a string map's entries.
pub open spec fn text_entries(s: Seq<(String, String)>) -> Seq<(Seq<char>, Seq<char>)> {
    s.map_values(|e: (String, String)| (e.0@, e.1@))
}

/// The keys, by their text, of a list of entries.
pub open spec fn string_keys<X>(s: Seq<(String, X)>) -> Seq<Seq<char>> {
    s.map_values(|e: (String, X)| e.0@)
}

/// The keys of a list of entries already given by text.
pub open spec fn entry_keys<X>(s: Seq<(Seq<char>, X)>) -> Seq<Seq<char>> {
    s.map_values(|e: (Seq<char>, X)| e.0)
}

/// The JSON object that presents a header: `durable`, `priority`, `ttl`
/// (only when set), `first_acquirer` and `delivery_count`.
pub open spec fn header_entries(h: HeaderFields) -> Seq<(Seq<char>, JsonValue)> {
    seq![("durable"@, JsonValue::Bool(h.durable)), ("priority"@, JsonValue::UInt(h.priority as u64))]
    + match h.ttl {
        Some(t) => seq![("ttl"@, JsonValue::UInt(t as u64))],
        None => seq![],
    }
    + seq![
        ("first_acquirer"@, JsonValue::Bool(h.first_acquirer)),
        ("delivery_count"@, JsonValue::UInt(h.delivery_count as u64)),
    ]
}

/// The concatenation of byte chunks, in order.
pub open spec fn concat_chunks(chunks: Seq<Seq<u8>>) -> Seq<u8>
    decreases chunks.len(),
{
    if chunks.len() == 0 {
        seq![]
    } else {
        concat_chunks(chunks.drop_last()) + chunks.last()
    }
}

/// The bytes of a byte vector, or none.
pub open spec fn bytes_or_empty(o: Option<Vec<u8>>) -> Seq<u8> {
    match o {
        Some(v) => v@,
        None => seq![],
    }
}

/// The bytes handed to the callback as the body of a message: the data
/// sections concatenated, a binary value as it is, a string value as UTF-8,
/// any other value or a sequence as its JSON encoding (nothing where that
/// failed), and nothing for an empty body.
pub open spec fn body_bytes(b: BodySection) -> Seq<u8> {
    match b {
        BodySection::Data(chunks) => concat_chunks(chunks@.map_values(|c: Vec<u8>| c@)),
        BodySection::Binary(v) => v@,
        BodySection::Text(s) => encode_utf8(s@),
        BodySection::OtherValue(o) => bytes_or_empty(o),
        BodySection::Sequence(o) => bytes_or_empty(o),
        BodySection::Empty => seq![],
    }
}

/// What `String::from_utf8_lossy` returns for the given bytes.
pub uninterp spec fn utf8_lossy(bytes: Seq<u8>) -> Seq<char>;

/// `String::from_utf8_lossy` of std, made an owned string.
/// Claimed: the result is `utf8_lossy` of the bytes, and, as std documents,
/// where the bytes are valid UTF-8 it is exactly the text they encode.
/// Left unsaid: which replacement characters stand for invalid sequences.
#[verifier::external_body]
fn string_from_utf8_lossy(bytes: &[u8]) -> (s: String)
    ensures
        s@ == utf8_lossy(bytes@),
        valid_utf8(bytes@) ==> s@ == decode_utf8(bytes@),
{
    String::from_utf8_lossy(bytes).into_owned()
}

/// The text of binary data: the text it encodes when it is valid UTF-8,
/// its lossy decoding otherwise.
pub open spec fn binary_text(bytes: Seq<u8>) -> Seq<char> {
    if valid_utf8(bytes) {
        decode_utf8(bytes)
    } else {
        utf8_lossy(bytes)
    }
}

/// The text under which an application property is handed to the callback.
pub open spec fn property_text(v: PropertyValue) -> Seq<char> {
    match v {
        PropertyValue::Null => seq![],
        PropertyValue::Text(s) => s@,
        PropertyValue::Symbol(s) => s@,
        PropertyValue::Binary(b) => binary_text(b@),
        PropertyValue::Other { json, debug } => match json {
            Some(j) => j@,
            None => debug@,
        },
    }
}

/// The debug name of a settle mode.
pub open spec fn settle_mode_text(m: SettleMode) -> Seq<char> {
    match m {
        SettleMode::First => "First"@,
        SettleMode::Second => "Second"@,
    }
}

/// The entries of an annotation section: those of a non-empty JSON object,
/// nothing for an empty object, any other value or an absent section.
pub open spec fn annotation_entries(v: Option<JsonValue>) -> Option<Vec<(String, JsonValue)>> {
    match v {
        Some(JsonValue::Object(entries)) => if entries@.len() > 0 {
            Some(entries)
        } else {
            None
        },
        _ => None,
    }
}

/// The single-entry pieces of the object that presents a header.
proof fn lemma_header_pieces(h: HeaderFields)
    ensures
        header_entries(h) == seq![("durable"@, JsonValue::Bool(h.durable))]
            + seq![("priority"@, JsonValue::UInt(h.priority as u64))]
            + match h.ttl {
                Some(t) => seq![("ttl"@, JsonValue::UInt(t as u64))],
                None => seq![],
            }
            + seq![("first_acquirer"@, JsonValue::Bool(h.first_acquirer))]
            + seq![("delivery_count"@, JsonValue::UInt(h.delivery_count as u64))],
{
    assert(header_entries(h) =~= seq![("durable"@, JsonValue::Bool(h.durable))]
            + seq![("priority"@, JsonValue::UInt(h.priority as u64))]
            + match h.ttl {
                Some(t) => seq![("ttl"@, JsonValue::UInt(t as u64))],
                None => seq![],
            }
            + seq![("first_acquirer"@, JsonValue::Bool(h.first_acquirer))]
            + seq![("delivery_count"@, JsonValue::UInt(h.delivery_count as u64))]);
}

/// Looking one of the header's names up in its object.
proof fn lemma_header_lookup_at(h: HeaderFields, key: Seq<char>)
    requires
        key == "durable"@ || key == "priority"@ || key == "ttl"@ || key == "first_acquirer"@
            || key == "delivery_count"@,
    ensures
        key == "durable"@ ==> lookup(header_entries(h), key) == Some(JsonValue::Bool(h.durable)),
        key == "priority"@ ==> lookup(header_entries(h), key) == Some(
            JsonValue::UInt(h.priority as u64),
        ),
        key == "ttl"@ ==> lookup(header_entries(h), key) == match h.ttl {
            Some(t) => Some(JsonValue::UInt(t as u64)),
            None => None,
        },
        key == "first_acquirer"@ ==> lookup(header_entries(h), key) == Some(
            JsonValue::Bool(h.first_acquirer),
        ),
        key == "delivery_count"@ ==> lookup(header_entries(h), key) == Some(
            JsonValue::UInt(h.delivery_count as u64),
        ),
{
    reveal_strlit("durable");
    reveal_strlit("priority");
    reveal_strlit("ttl");
    reveal_strlit("first_acquirer");
    reveal_strlit("delivery_count");
    assert("durable"@.len() != "priority"@.len());
    assert("durable"@.len() != "ttl"@.len());
    assert("durable"@.len() != "first_acquirer"@.len());
    assert("durable"@.len() != "delivery_count"@.len());
    assert("priority"@.len() != "ttl"@.len());
    assert("priority"@.len() != "first_acquirer"@.len());
    assert("priority"@.len() != "delivery_count"@.len());
    assert("ttl"@.len() != "first_acquirer"@.len());
    assert("ttl"@.len() != "delivery_count"@.len());
    assert("first_acquirer"@[0] != "delivery_count"@[0]);
    lemma_header_pieces(h);
    let a = seq![("durable"@, JsonValue::Bool(h.durable))];
    let b = seq![("priority"@, JsonValue::UInt(h.priority as u64))];
    let t = match h.ttl {
        Some(x) => seq![("ttl"@, JsonValue::UInt(x as u64))],
        None => Seq::<(Seq<char>, JsonValue)>::empty(),
    };
    let c = seq![("first_acquirer"@, JsonValue::Bool(h.first_acquirer))];
    let d = seq![("delivery_count"@, JsonValue::UInt(h.delivery_count as u64))];
    lemma_lookup_single("durable"@, JsonValue::Bool(h.durable), key);
    lemma_lookup_single("priority"@, JsonValue::UInt(h.priority as u64), key);
    match h.ttl {
        Some(x) => lemma_lookup_single("ttl"@, JsonValue::UInt(x as u64), key),
        None => lemma_lookup_single("ttl"@, JsonValue::Null, key),
    }
    lemma_lookup_single("first_acquirer"@, JsonValue::Bool(h.first_acquirer), key);
    lemma_lookup_single("delivery_count"@, JsonValue::UInt(h.delivery_count as u64), key);
    lemma_lookup_concat(a, b, key);
    lemma_lookup_concat(a + b, t, key);
    lemma_lookup_concat(a + b + t, c, key);
    lemma_lookup_concat(a + b + t + c, d, key);
}

/// The object that presents a header holds, for every header, `durable`,
/// `priority`, `first_acquirer` and `delivery_count` with the header's own
/// values, and `ttl` exactly when the header sets one, with that value; it
/// has four entries, five with a `ttl`.
pub proof fn lemma_header_by_key(h: HeaderFields)
    ensures
        lookup(header_entries(h), "durable"@) == Some(JsonValue::Bool(h.durable)),
        lookup(header_entries(h), "priority"@) == Some(JsonValue::UInt(h.priority as u64)),
        lookup(header_entries(h), "ttl"@) == match h.ttl {
            Some(t) => Some(JsonValue::UInt(t as u64)),
            None => None::<JsonValue>,
        },
        lookup(header_entries(h), "first_acquirer"@) == Some(JsonValue::Bool(h.first_acquirer)),
        lookup(header_entries(h), "delivery_count"@) == Some(
            JsonValue::UInt(h.delivery_count as u64),
        ),
        header_entries(h).len() == if h.ttl is Some {
            5int
        } else {
            4int
        },
{
    lemma_header_lookup_at(h, "durable"@);
    lemma_header_lookup_at(h, "priority"@);
    lemma_header_lookup_at(h, "ttl"@);
    lemma_header_lookup_at(h, "first_acquirer"@);
    lemma_header_lookup_at(h, "delivery_count"@);
}

/// The keys of the object that presents a header are all different, as in
/// a map.
pub proof fn lemma_header_keys_distinct(h: HeaderFields)
    ensures
        entry_keys(header_entries(h)).no_duplicates(),
{
    reveal_strlit("durable");
    reveal_strlit("priority");
    reveal_strlit("ttl");
    reveal_strlit("first_acquirer");
    reveal_strlit("delivery_count");
    let keys = entry_keys(header_entries(h));
    assert("durable"@[0] != "priority"@[0]);
    assert("durable"@[0] != "ttl"@[0]);
    assert("durable"@[1] != "delivery_count"@[1]);
    assert("priority"@[0] != "ttl"@[0]);
    assert("first_acquirer"@[0] != "delivery_count"@[0]);
    match h.ttl {
        Some(t) => {
            assert(keys =~= seq!["durable"@, "priority"@, "ttl"@, "first_acquirer"@, "delivery_count"@]);
        },
        None => {
            assert(keys =~= seq!["durable"@, "priority"@, "first_acquirer"@, "delivery_count"@]);
        },
    }
}

/// The JSON object that presents a message header.
pub fn header_to_json(hdr: &HeaderFields) -> (m: Vec<(String, JsonValue)>)
    ensures
        json_entries(m@) == header_entries(*hdr),
        string_keys(m@).no_duplicates(),
{
    let mut m: Vec<(String, JsonValue)> = Vec::new();
    m.push((String::from_str("durable"), JsonValue::Bool(hdr.durable)));
    m.push((String::from_str("priority"), JsonValue::UInt(hdr.priority as u64)));
    match hdr.ttl {
        Some(ttl) => {
            m.push((String::from_str("ttl"), JsonValue::UInt(ttl as u64)));
        },
        None => {},
    }
    m.push((String::from_str("first_acquirer"), JsonValue::Bool(hdr.first_acquirer)));
    m.push((String::from_str("delivery_count"), JsonValue::UInt(hdr.delivery_count as u64)));
    assert(json_entries(m@) =~= header_entries(*hdr));
    proof {
        lemma_header_keys_distinct(*hdr);
        assert(string_keys(m@) =~= entry_keys(json_entries(m@)));
    }
    m
}

/// Appends the bytes of `chunk` to `out`.
fn append_bytes(out: &mut Vec<u8>, chunk: &Vec<u8>)
    ensures
        final(out)@ == old(out)@ + chunk@,
{
    let ghost start = old(out)@;
    let mut i: usize = 0;
    while i < chunk.len()
        invariant
            i <= chunk.len(),
            out@ == start + chunk@.subrange(0, i as int),
        decreases chunk.len() - i,
    {
        out.push(chunk[i]);
        i = i + 1;
        assert(out@ =~= start + chunk@.subrange(0, i as int));
    }
    assert(chunk@.subrange(0, chunk.len() as int) =~= chunk@);
}

/// The bytes handed to the callback as the body of a message.
pub fn body_to_bytes(body: &BodySection) -> (r: Vec<u8>)
    ensures
        r@ == body_bytes(*body),
{
    match body {
        BodySection::Data(batch) => {
            let ghost chunks = batch@.map_values(|c: Vec<u8>| c@);
            let mut out: Vec<u8> = Vec::new();
            let mut i: usize = 0;
            while i < batch.len()
                invariant
                    i <= batch.len(),
                    chunks == batch@.map_values(|c: Vec<u8>| c@),
                    out@ == concat_chunks(chunks.subrange(0, i as int)),
                decreases batch.len() - i,
            {
                append_bytes(&mut out, &batch[i]);
                assert(chunks.subrange(0, i + 1).drop_last() =~= chunks.subrange(0, i as int));
                i = i + 1;
            }
            assert(chunks.subrange(0, batch.len() as int) =~= chunks);
            out
        },
        BodySection::Binary(b) => {
            let mut out: Vec<u8> = Vec::new();
            append_bytes(&mut out, b);
            assert(out@ =~= b@);
            out
        },
        BodySection::Text(s) => s.as_str().as_bytes_vec(),
        BodySection::OtherValue(o) | BodySection::Sequence(o) => {
            let mut out: Vec<u8> = Vec::new();
            match o {
                Some(v) => {
                    append_bytes(&mut out, v);
                    assert(out@ =~= v@);
                },
                None => {},
            }
            out
        },
        BodySection::Empty => Vec::new(),
    }
}

/// The text under which an application property is handed to the callback.
pub fn simple_value_to_string(val: &PropertyValue) -> (s: String)
    ensures
        s@ == property_text(*val),
{
    match val {
        PropertyValue::Text(s) => s.clone(),
        PropertyValue::Symbol(s) => s.clone(),
        PropertyValue::Binary(b) => string_from_utf8_lossy(b.as_slice()),
        PropertyValue::Null => String::new(),
        PropertyValue::Other { json, debug } => match json {
            Some(j) => j.clone(),
            None => debug.clone(),
        },
    }
}

/// The application properties as text: each key with the text of its value,
/// in order; no entries where the section is absent.
pub fn extract_properties(app_props: Option<&Vec<(String, PropertyValue)>>) -> (m: Vec<(String, String)>)
    ensures
        text_entries(m@) == match app_props {
            Some(p) => p@.map_values(|e: (String, PropertyValue)| (e.0@, property_text(e.1))),
            None => Seq::<(Seq<char>, Seq<char>)>::empty(),
        },
        string_keys(m@) == match app_props {
            Some(p) => string_keys(p@),
            None => Seq::<Seq<char>>::empty(),
        },
{
    let mut m: Vec<(String, String)> = Vec::new();
    match app_props {
        Some(props) => {
            let ghost want = props@.map_values(|e: (String, PropertyValue)| (e.0@, property_text(e.1)));
            let mut i: usize = 0;
            while i < props.len()
                invariant
                    i <= props.len(),
                    want == props@.map_values(|e: (String, PropertyValue)| (e.0@, property_text(e.1))),
                    text_entries(m@) == want.subrange(0, i as int),
                decreases props.len() - i,
            {
                let entry = &props[i];
                let s = simple_value_to_string(&entry.1);
                let key = entry.0.clone();
                assert(want[i as int] == (key@, s@));
                let ghost before = m@;
                m.push((key, s));
                assert(text_entries(m@) =~= text_entries(before).push((key@, s@)));
                i = i + 1;
                assert(text_entries(m@) =~= want.subrange(0, i as int));
            }
            assert(want.subrange(0, props.len() as int) =~= want);
            assert forall|k: int| 0 <= k < m@.len() implies #[trigger] string_keys(m@)[k] == string_keys(props@)[k] by {
                assert(text_entries(m@)[k] == want[k]);
            }
            assert(string_keys(m@) =~= string_keys(props@));
        },
        None => {
            assert(text_entries(m@) =~= Seq::<(Seq<char>, Seq<char>)>::empty());
            assert(string_keys(m@) =~= Seq::<Seq<char>>::empty());
        },
    }
    m
}

/// The entries of an annotation section (given as its JSON encoding).
pub fn annotations_to_map(value: Option<JsonValue>) -> (r: Option<Vec<(String, JsonValue)>>)
    ensures
        r == annotation_entries(value),
{
    match value {
        Some(JsonValue::Object(entries)) => {
            if entries.len() > 0 {
                Some(entries)
            } else {
                None
            }
        },
        _ => None,
    }
}

/// The debug name of a settle mode.
pub fn settle_mode_name(mode: &SettleMode) -> (s: String)
    ensures
        s@ == settle_mode_text(*mode),
{
    match mode {
        SettleMode::First => String::from_str("First"),
        SettleMode::Second => String::from_str("Second"),
    }
}

/// The plain data of a received delivery.
pub fn delivery_to_data(delivery: DeliveryFields) -> (d: MessageData)
    ensures
        d.delivery_id == delivery.delivery_id as i64,
        d.delivery_tag@ == delivery.delivery_tag@,
        d.message_format == match delivery.message_format {
            Some(f) => Some(f as i64),
            None => None::<i64>,
        },
        d.rcv_settle_mode.is_some() == delivery.rcv_settle_mode.is_some(),
        delivery.rcv_settle_mode.is_some() ==> d.rcv_settle_mode->0@ == settle_mode_text(
            delivery.rcv_settle_mode->0,
        ),
        d.link_output_handle == delivery.handle,
        d.body@ == body_bytes(delivery.body),
        d.header.is_some() == delivery.header.is_some(),
        delivery.header.is_some() ==> json_entries(d.header->0@) == header_entries(
            delivery.header->0,
        ),
        d.delivery_annotations == annotation_entries(delivery.delivery_annotations),
        d.message_annotations == annotation_entries(delivery.message_annotations),
        d.footer == annotation_entries(delivery.footer),
        d.properties == delivery.properties,
        text_entries(d.application_properties@) == match delivery.application_properties {
            Some(p) => p@.map_values(|e: (String, PropertyValue)| (e.0@, property_text(e.1))),
            None => Seq::<(Seq<char>, Seq<char>)>::empty(),
        },
        d.header.is_some() ==> string_keys(d.header->0@).no_duplicates(),
        string_keys(d.application_properties@) == match delivery.application_properties {
            Some(p) => string_keys(p@),
            None => Seq::<Seq<char>>::empty(),
        },
{
    let body = body_to_bytes(&delivery.body);
    let header = match &delivery.header {
        Some(h) => Some(header_to_json(h)),
        None => None,
    };
    let rcv_settle_mode = match &delivery.rcv_settle_mode {
        Some(m) => Some(settle_mode_name(m)),
        None => None,
    };
    let message_format = match delivery.message_format {
        Some(f) => Some(f as i64),
        None => None,
    };
    let application_properties = match &delivery.application_properties {
        Some(ap) => extract_properties(Some(ap)),
        None => {
            let m: Vec<(String, String)> = Vec::new();
            assert(string_keys(m@) =~= Seq::<Seq<char>>::empty());
            assert(text_entries(m@) =~= Seq::<(Seq<char>, Seq<char>)>::empty());
            m
        },
    };
    MessageData {
        delivery_id: delivery.delivery_id as i64,
        delivery_tag: delivery.delivery_tag,
        message_format,
        rcv_settle_mode,
        link_output_handle: delivery.handle,
        header,
        delivery_annotations: annotations_to_map(delivery.delivery_annotations),
        message_annotations: annotations_to_map(delivery.message_annotations),
        properties: delivery.properties,
        application_properties,
        body,
        footer: annotations_to_map(delivery.footer),
    }
}

/// The message handed to the callback: the extracted data, field for field,
/// with the application properties always present.
pub open spec fn message_of(m: MessageData) -> PyAmqpMessage {
    PyAmqpMessage {
        delivery_id: m.delivery_id,
        delivery_tag: m.delivery_tag,
        message_format: m.message_format,
        rcv_settle_mode: m.rcv_settle_mode,
        link_output_handle: m.link_output_handle,
        header: m.header,
        delivery_annotations: m.delivery_annotations,
        message_annotations: m.message_annotations,
        properties: m.properties,
        application_properties: Some(m.application_properties),
        body: m.body,
        footer: m.footer,
    }
}

impl From<MessageData> for PyAmqpMessage {
    fn from(m: MessageData) -> (r: Self) {
        PyAmqpMessage {
            delivery_id: m.delivery_id,
            delivery_tag: m.delivery_tag,
            message_format: m.message_format,
            rcv_settle_mode: m.rcv_settle_mode,
            link_output_handle: m.link_output_handle,
            header: m.header,
            delivery_annotations: m.delivery_annotations,
            message_annotations: m.message_annotations,
            properties: m.properties,
            application_properties: Some(m.application_properties),
            body: m.body,
            footer: m.footer,
        }
    }
}

impl vstd::std_specs::convert::FromSpecImpl<MessageData> for PyAmqpMessage {
    open spec fn obeys_from_spec() -> bool {
        true
    }

    open spec fn from_spec(v: MessageData) -> Self {
        message_of(v)
    }
}

/// The message handed to the callback always carries its application
/// properties (empty when the delivery had none), and keeps the delivery's
/// id, tag, body and link handle as extracted.
pub proof fn lemma_message_always_has_application_properties(m: MessageData)
    ensures
        message_of(m).application_properties == Some(m.application_properties),
        message_of(m).delivery_id == m.delivery_id,
        message_of(m).delivery_tag == m.delivery_tag,
        message_of(m).body == m.body,
        message_of(m).link_output_handle == m.link_output_handle,
{
}

/// An annotation section shows exactly the entries of a JSON object with at
/// least one entry; an empty object, any other JSON value and an absent
/// section show nothing.
pub proof fn lemma_annotation_entries(entries: Vec<(String, JsonValue)>, other: JsonValue)
    ensures
        entries@.len() > 0 ==> annotation_entries(Some(JsonValue::Object(entries))) == Some(entries),
        entries@.len() == 0 ==> annotation_entries(Some(JsonValue::Object(entries))).is_none(),
        !(other is Object) ==> annotation_entries(Some(other)).is_none(),
        annotation_entries(None).is_none(),
{
}

/// Joining data sections: one section gives its own bytes, and the bytes of
/// two batches one after the other are those of the first followed by those
/// of the second.
pub proof fn lemma_concat_chunks(a: Seq<Seq<u8>>, b: Seq<Seq<u8>>, c: Seq<u8>)
    ensures
        concat_chunks(Seq::<Seq<u8>>::empty()) == Seq::<u8>::empty(),
        concat_chunks(seq![c]) == c,
        concat_chunks(a + b) == concat_chunks(a) + concat_chunks(b),
    decreases b.len(),
{
    assert(seq![c].drop_last() =~= Seq::<Seq<u8>>::empty());
    assert(Seq::<u8>::empty() + c =~= c);
    if b.len() == 0 {
        assert(a + b =~= a);
        assert(concat_chunks(a) + Seq::<u8>::empty() =~= concat_chunks(a));
    } else {
        assert((a + b).drop_last() =~= a + b.drop_last());
        lemma_concat_chunks(a, b.drop_last(), c);
        assert(concat_chunks(a + b) =~= concat_chunks(a) + concat_chunks(b));
    }
}

/// The body bytes of each kind of body: a binary value as it is, a string
/// as its UTF-8 encoding, an encoded value or sequence as its encoding (no
/// bytes where encoding failed), no bytes for an empty body, and a batch of
/// data sections as their bytes one after the other, in batch order (see
/// also `lemma_concat_chunks` for batches of any size).
pub proof fn lemma_body_bytes(v: Vec<u8>, s: String, chunks: Vec<Vec<u8>>)
    ensures
        body_bytes(BodySection::Binary(v)) == v@,
        body_bytes(BodySection::Text(s)) == encode_utf8(s@),
        body_bytes(BodySection::OtherValue(Some(v))) == v@,
        body_bytes(BodySection::Sequence(Some(v))) == v@,
        body_bytes(BodySection::OtherValue(None)).len() == 0,
        body_bytes(BodySection::Sequence(None)).len() == 0,
        body_bytes(BodySection::Empty).len() == 0,
        chunks@.len() == 1 ==> body_bytes(BodySection::Data(chunks)) == chunks@[0]@,
        chunks@.len() == 0 ==> body_bytes(BodySection::Data(chunks)).len() == 0,
        chunks@.len() == 2 ==> body_bytes(BodySection::Data(chunks)) == chunks@[0]@ + chunks@[1]@,
{
    let cs = chunks@.map_values(|c: Vec<u8>| c@);
    if chunks@.len() == 1 {
        assert(cs =~= seq![chunks@[0]@]);
        lemma_concat_chunks(Seq::empty(), Seq::empty(), chunks@[0]@);
    }
    if chunks@.len() == 2 {
        assert(cs =~= seq![chunks@[0]@] + seq![chunks@[1]@]);
        lemma_concat_chunks(seq![chunks@[0]@], seq![chunks@[1]@], chunks@[0]@);
        lemma_concat_chunks(Seq::empty(), Seq::empty(), chunks@[1]@);
    }
}

/// The text of an application property: a string or symbol is its own
/// text, null is empty, binary that is valid UTF-8 is the text it encodes,
/// and any other value is its JSON text, or its debug rendering where the
/// encoding failed.
pub proof fn lemma_property_text(t: String, b: Vec<u8>, j: String, d: String)
    ensures
        property_text(PropertyValue::Text(t)) == t@,
        property_text(PropertyValue::Symbol(t)) == t@,
        property_text(PropertyValue::Null).len() == 0,
        valid_utf8(b@) ==> property_text(PropertyValue::Binary(b)) == decode_utf8(b@),
        property_text(PropertyValue::Other { json: Some(j), debug: d }) == j@,
        property_text(PropertyValue::Other { json: None, debug: d }) == d@,
{
}

/// The two settle modes are named `First` and `Second`, differently.
pub proof fn lemma_settle_mode_text()
    ensures
        settle_mode_text(SettleMode::First) == "First"@,
        settle_mode_text(SettleMode::Second) == "Second"@,
        settle_mode_text(SettleMode::First) != settle_mode_text(SettleMode::Second),
{
    reveal_strlit("First");
    reveal_strlit("Second");
    assert("First"@.len() != "Second"@.len());
}

} // verus!
