//! The messages that the broker publisher sends: a retained discovery
//! descriptor, the bare status, the attributes payload, and the empty
//! retained payloads that delete a plant's topics.
use vstd::prelude::*;
use vstd::string::*;
use crate::text::{as_opt_str, decimal, digit_char, opt_chars, opt_string, push_decimal};
use crate::topics::{
    attributes_topic, attributes_topic_of, config_topic, config_topic_of, state_topic,
    state_topic_of, unique_id, unique_id_of,
};
use crate::watering::{watering_status_on, watering_text};

verus! {

/// One message for the bus: a topic, a payload, and whether the broker keeps
/// it as the topic's retained message.
pub struct Message {
    pub topic: String,
    pub payload: String,
    pub retain: bool,
}

/// A message as plain values.
pub open spec fn message_view(m: Message) -> (Seq<char>, Seq<char>, bool) {
    (m.topic@, m.payload@, m.retain)
}

/// A list of messages as plain values.
pub open spec fn messages_view(ms: Seq<Message>) -> Seq<(Seq<char>, Seq<char>, bool)> {
    ms.map_values(|m: Message| message_view(m))
}

/// A plant as the background loop and the repair read it from the store.
pub struct PlantRecord {
    pub id: i64,
    pub name: String,
    pub watering_interval_days: i64,
    pub last_watered: Option<String>,
}

/// A hexadecimal digit, lower case.
pub open spec fn hex_digit(d: int) -> char {
    if d < 10 {
        digit_char(d)
    } else if d == 10 {
        'a'
    } else if d == 11 {
        'b'
    } else if d == 12 {
        'c'
    } else if d == 13 {
        'd'
    } else if d == 14 {
        'e'
    } else {
        'f'
    }
}

/// How one character stands inside a JSON string: `"` and `\` behind a
/// backslash, the control characters with a short escape where JSON has one
/// and as `\u00XX` otherwise, every other character as itself.
pub open spec fn json_char(c: char) -> Seq<char> {
    if c == '"' {
        seq!['\\', '"']
    } else if c == '\\' {
        seq!['\\', '\\']
    } else if c == '\u{8}' {
        seq!['\\', 'b']
    } else if c == '\t' {
        seq!['\\', 't']
    } else if c == '\n' {
        seq!['\\', 'n']
    } else if c == '\u{c}' {
        seq!['\\', 'f']
    } else if c == '\r' {
        seq!['\\', 'r']
    } else if (c as int) < 32 {
        seq!['\\', 'u', '0', '0', hex_digit((c as int) / 16), hex_digit((c as int) % 16)]
    } else {
        seq![c]
    }
}

/// The characters of a text, each as it stands inside a JSON string.
pub open spec fn json_body(s: Seq<char>) -> Seq<char>
    decreases s.len(),
{
    if s.len() == 0 {
        Seq::empty()
    } else {
        json_body(s.drop_last()) + json_char(s.last())
    }
}

/// The JSON string literal of a text: its escaped characters in quotes.
pub open spec fn json_text(s: Seq<char>) -> Seq<char> {
    seq!['"'] + json_body(s) + seq!['"']
}

/// Relies on `serde_json::to_string` on a `str`: the quoted literal, with
/// the escapes of serde_json's `ESCAPE` table and `write_char_escape`.
/// Writing a string into memory does not fail.
#[verifier::external_body]
fn json_quote(s: &str) -> (r: String)
    ensures
        r@ == json_text(s@),
{
    match serde_json::to_string(s) {
        Ok(t) => t,
        Err(_) => String::new(),
    }
}

/// A JSON value that is a string or `null`.
pub open spec fn json_opt_text(s: Option<Seq<char>>) -> Seq<char> {
    match s {
        Some(t) => json_text(t),
        None => "null"@,
    }
}

/// The discovery descriptor of a plant: compact JSON, keys in order.
pub open spec fn discovery_payload_of(prefix: Seq<char>, id: int, name: Seq<char>) -> Seq<char> {
    "{\"device\":{\"identifiers\":["@ + json_text(prefix) + "],\"manufacturer\":\"flowl\",\"name\":"@
        + json_text(prefix) + "},\"icon\":\"mdi:flower\",\"json_attributes_topic\":"@
        + json_text(attributes_topic_of(prefix, id)) + ",\"name\":"@ + json_text(name)
        + ",\"state_topic\":"@ + json_text(state_topic_of(prefix, id)) + ",\"unique_id\":"@
        + json_text(unique_id_of(prefix, id)) + "}"@
}

/// The attributes payload of a plant: compact JSON, keys in order.
pub open spec fn attributes_payload_of(last_watered: Option<Seq<char>>, next_due: Option<Seq<char>>, interval: int) -> Seq<char> {
    "{\"last_watered\":"@ + json_opt_text(last_watered) + ",\"next_due\":"@ + json_opt_text(next_due)
        + ",\"watering_interval_days\":"@ + decimal(interval) + "}"@
}

/// The retained discovery message of a plant.
pub open spec fn discovery_of(prefix: Seq<char>, id: int, name: Seq<char>) -> (Seq<char>, Seq<char>, bool) {
    (config_topic_of(prefix, id), discovery_payload_of(prefix, id, name), true)
}

/// The retained state message of a plant.
pub open spec fn state_of(prefix: Seq<char>, id: int, status: Seq<char>) -> (Seq<char>, Seq<char>, bool) {
    (state_topic_of(prefix, id), status, true)
}

/// The retained attributes message of a plant.
pub open spec fn attributes_of(
    prefix: Seq<char>,
    id: int,
    last_watered: Option<Seq<char>>,
    next_due: Option<Seq<char>>,
    interval: int,
) -> (Seq<char>, Seq<char>, bool) {
    (attributes_topic_of(prefix, id), attributes_payload_of(last_watered, next_due, interval), true)
}

/// The three empty retained messages that delete a plant's topics.
pub open spec fn removal_of(prefix: Seq<char>, id: int) -> Seq<(Seq<char>, Seq<char>, bool)> {
    seq![
        (config_topic_of(prefix, id), Seq::<char>::empty(), true),
        (state_topic_of(prefix, id), Seq::<char>::empty(), true),
        (attributes_topic_of(prefix, id), Seq::<char>::empty(), true),
    ]
}

/// The discovery descriptor message of a plant.
pub fn discovery_message(prefix: &str, plant_id: i64, plant_name: &str) -> (r: Message)
    ensures
        message_view(r) == discovery_of(prefix@, plant_id as int, plant_name@),
{
    let mut p = String::from_str("{\"device\":{\"identifiers\":[");
    let qp = json_quote(prefix);
    p.append(qp.as_str());
    p.append("],\"manufacturer\":\"flowl\",\"name\":");
    p.append(qp.as_str());
    p.append("},\"icon\":\"mdi:flower\",\"json_attributes_topic\":");
    let at = attributes_topic(prefix, plant_id);
    p.append(json_quote(at.as_str()).as_str());
    p.append(",\"name\":");
    p.append(json_quote(plant_name).as_str());
    p.append(",\"state_topic\":");
    let st = state_topic(prefix, plant_id);
    p.append(json_quote(st.as_str()).as_str());
    p.append(",\"unique_id\":");
    let uid = unique_id(prefix, plant_id);
    p.append(json_quote(uid.as_str()).as_str());
    p.append("}");
    assert(p@ =~= discovery_payload_of(prefix@, plant_id as int, plant_name@));
    Message { topic: config_topic(prefix, plant_id), payload: p, retain: true }
}

/// The state message of a plant: the bare status string.
pub fn state_message(prefix: &str, plant_id: i64, status: &str) -> (r: Message)
    ensures
        message_view(r) == state_of(prefix@, plant_id as int, status@),
{
    Message { topic: state_topic(prefix, plant_id), payload: String::from_str(status), retain: true }
}

/// Appends a JSON string or `null` to `out`.
fn push_json_opt(out: &mut String, s: Option<&str>)
    ensures
        final(out)@ == old(out)@ + json_opt_text(opt_chars(s)),
{
    match s {
        Some(t) => {
            let q = json_quote(t);
            out.append(q.as_str());
        },
        None => {
            out.append("null");
        },
    }
}

/// The attributes message of a plant.
pub fn attributes_message(
    prefix: &str,
    plant_id: i64,
    last_watered: Option<&str>,
    next_due: Option<&str>,
    interval_days: i64,
) -> (r: Message)
    ensures
        message_view(r) == attributes_of(
            prefix@,
            plant_id as int,
            opt_chars(last_watered),
            opt_chars(next_due),
            interval_days as int,
        ),
{
    let mut p = String::from_str("{\"last_watered\":");
    push_json_opt(&mut p, last_watered);
    p.append(",\"next_due\":");
    push_json_opt(&mut p, next_due);
    p.append(",\"watering_interval_days\":");
    push_decimal(&mut p, interval_days);
    p.append("}");
    assert(p@ =~= attributes_payload_of(opt_chars(last_watered), opt_chars(next_due), interval_days as int));
    Message { topic: attributes_topic(prefix, plant_id), payload: p, retain: true }
}

/// The empty retained messages that delete all three topics of a plant.
pub fn removal_messages(prefix: &str, plant_id: i64) -> (r: Vec<Message>)
    ensures
        messages_view(r@) == removal_of(prefix@, plant_id as int),
{
    let mut r: Vec<Message> = Vec::new();
    r.push(Message { topic: config_topic(prefix, plant_id), payload: String::new(), retain: true });
    r.push(Message { topic: state_topic(prefix, plant_id), payload: String::new(), retain: true });
    r.push(Message { topic: attributes_topic(prefix, plant_id), payload: String::new(), retain: true });
    assert(messages_view(r@) =~= removal_of(prefix@, plant_id as int));
    r
}

/// The status text a record has on day `today`.
pub open spec fn record_status_text(r: PlantRecord, today: int) -> Seq<char> {
    watering_text(opt_string(r.last_watered), r.watering_interval_days as int, today).0
}

/// The state and attributes messages of a record on day `today`.
pub open spec fn refresh_of(prefix: Seq<char>, r: PlantRecord, today: int) -> Seq<(Seq<char>, Seq<char>, bool)> {
    let w = watering_text(opt_string(r.last_watered), r.watering_interval_days as int, today);
    seq![
        state_of(prefix, r.id as int, w.0),
        attributes_of(prefix, r.id as int, opt_string(r.last_watered), w.1, r.watering_interval_days as int),
    ]
}

/// The discovery, state and attributes messages of a record on day `today`.
pub open spec fn announce_of(prefix: Seq<char>, r: PlantRecord, today: int) -> Seq<(Seq<char>, Seq<char>, bool)> {
    seq![discovery_of(prefix, r.id as int, r.name@)] + refresh_of(prefix, r, today)
}

/// The state and attributes messages of a record on day `today`; with
/// `announce`, led by its discovery descriptor.
pub fn record_messages(prefix: &str, record: &PlantRecord, today: i32, announce: bool) -> (r: Vec<Message>)
    ensures
        messages_view(r@) == if announce {
            announce_of(prefix@, *record, today as int)
        } else {
            refresh_of(prefix@, *record, today as int)
        },
{
    let lw = as_opt_str(&record.last_watered);
    let (status, next_due) = watering_status_on(lw, record.watering_interval_days, today);
    let mut r: Vec<Message> = Vec::new();
    if announce {
        r.push(discovery_message(prefix, record.id, record.name.as_str()));
    }
    r.push(state_message(prefix, record.id, status.as_str()));
    let nd = as_opt_str(&next_due);
    r.push(attributes_message(prefix, record.id, lw, nd, record.watering_interval_days));
    proof {
        let expected = if announce {
            announce_of(prefix@, *record, today as int)
        } else {
            refresh_of(prefix@, *record, today as int)
        };
        assert(messages_view(r@) =~= expected);
    }
    r
}

/// Every message of a full republish: discovery, state and attributes of
/// each record in turn.
pub open spec fn republish_of(prefix: Seq<char>, rows: Seq<PlantRecord>, today: int) -> Seq<(Seq<char>, Seq<char>, bool)>
    decreases rows.len(),
{
    if rows.len() == 0 {
        Seq::empty()
    } else {
        republish_of(prefix, rows.drop_last(), today) + announce_of(prefix, rows.last(), today)
    }
}

/// The messages that republish the full state of every record.
pub fn republish_messages(prefix: &str, rows: &Vec<PlantRecord>, today: i32) -> (r: Vec<Message>)
    ensures
        messages_view(r@) == republish_of(prefix@, rows@, today as int),
{
    let mut r: Vec<Message> = Vec::new();
    let mut i: usize = 0;
    while i < rows.len()
        invariant
            i <= rows@.len(),
            messages_view(r@) == republish_of(prefix@, rows@.subrange(0, i as int), today as int),
        decreases rows.len() - i,
    {
        let mut more = record_messages(prefix, &rows[i], today, true);
        proof {
            let pre = rows@.subrange(0, i as int);
            let now = rows@.subrange(0, i + 1);
            assert(now.drop_last() =~= pre);
            assert(now.last() == rows@[i as int]);
        }
        let ghost before = r@;
        r.append(&mut more);
        proof {
            assert(messages_view(r@) =~= messages_view(before) + announce_of(prefix@, rows@[i as int], today as int));
        }
        i = i + 1;
    }
    assert(rows@.subrange(0, rows@.len() as int) =~= rows@);
    r
}

} // verus!
