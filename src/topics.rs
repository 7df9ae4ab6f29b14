//! Message-bus topic names for a plant, and reading a plant ID back out of
//! a topic name.
use vstd::prelude::*;
use vstd::string::*;
use crate::text::{
    lemma_decimal_reads_back,
    chars_of, decimal, ends_with, has_prefix, has_suffix, i64_literal, parse_i64, push_decimal,
    starts_with, sub_chars,
};

verus! {

/// The discovery-config topic of a plant.
pub open spec fn config_topic_of(prefix: Seq<char>, id: int) -> Seq<char> {
    "homeassistant/sensor/"@ + prefix + "_plant_"@ + decimal(id) + "/config"@
}

/// The state topic of a plant.
pub open spec fn state_topic_of(prefix: Seq<char>, id: int) -> Seq<char> {
    prefix + "/plant/"@ + decimal(id) + "/state"@
}

/// The attributes topic of a plant.
pub open spec fn attributes_topic_of(prefix: Seq<char>, id: int) -> Seq<char> {
    prefix + "/plant/"@ + decimal(id) + "/attributes"@
}

/// The stable unique ID of a plant's sensor entity.
pub open spec fn unique_id_of(prefix: Seq<char>, id: int) -> Seq<char> {
    prefix + "_plant_"@ + decimal(id)
}

/// The part of `s` between a leading `pre` and a trailing `suf`, the suffix
/// looked for only after the prefix.
pub open spec fn between(s: Seq<char>, pre: Seq<char>, suf: Seq<char>) -> Option<Seq<char>> {
    if has_prefix(s, pre) && has_suffix(s.subrange(pre.len() as int, s.len() as int), suf) {
        Some(s.subrange(pre.len() as int, s.len() - suf.len()))
    } else {
        None
    }
}

/// The plant ID named by a topic of one of the three known shapes for
/// `prefix`; none for any other topic or an ID that is not an `i64`.
pub open spec fn extract_id(topic: Seq<char>, prefix: Seq<char>) -> Option<i64> {
    match between(topic, "homeassistant/sensor/"@ + prefix + "_plant_"@, "/config"@) {
        Some(id) => i64_literal(id),
        None => match between(topic, prefix + "/plant/"@, "/state"@) {
            Some(id) => i64_literal(id),
            None => match between(topic, prefix + "/plant/"@, "/attributes"@) {
                Some(id) => i64_literal(id),
                None => None,
            },
        },
    }
}

/// The three topics that carry a plant's state on the message bus.
pub struct TopicSet {
    /// Where the retained discovery descriptor lives.
    pub config: String,
    /// Where the bare status string lives.
    pub state: String,
    /// Where the attributes payload lives.
    pub attributes: String,
}

impl TopicSet {
    /// The topics of plant `plant_id` under `prefix`.
    pub fn new(prefix: &str, plant_id: i64) -> (r: TopicSet)
        ensures
            r.config@ == config_topic_of(prefix@, plant_id as int),
            r.state@ == state_topic_of(prefix@, plant_id as int),
            r.attributes@ == attributes_topic_of(prefix@, plant_id as int),
    {
        TopicSet {
            config: config_topic(prefix, plant_id),
            state: state_topic(prefix, plant_id),
            attributes: attributes_topic(prefix, plant_id),
        }
    }
}

/// The discovery-config topic of a plant.
pub fn config_topic(prefix: &str, plant_id: i64) -> (r: String)
    ensures
        r@ == config_topic_of(prefix@, plant_id as int),
{
    let mut t = String::from_str("homeassistant/sensor/");
    t.append(prefix);
    t.append("_plant_");
    push_decimal(&mut t, plant_id);
    t.append("/config");
    assert(t@ =~= config_topic_of(prefix@, plant_id as int));
    t
}

/// The state topic of a plant.
pub fn state_topic(prefix: &str, plant_id: i64) -> (r: String)
    ensures
        r@ == state_topic_of(prefix@, plant_id as int),
{
    let mut t = String::from_str(prefix);
    t.append("/plant/");
    push_decimal(&mut t, plant_id);
    t.append("/state");
    assert(t@ =~= state_topic_of(prefix@, plant_id as int));
    t
}

/// The attributes topic of a plant.
pub fn attributes_topic(prefix: &str, plant_id: i64) -> (r: String)
    ensures
        r@ == attributes_topic_of(prefix@, plant_id as int),
{
    let mut t = String::from_str(prefix);
    t.append("/plant/");
    push_decimal(&mut t, plant_id);
    t.append("/attributes");
    assert(t@ =~= attributes_topic_of(prefix@, plant_id as int));
    t
}

/// The unique ID of a plant's sensor entity.
pub fn unique_id(prefix: &str, plant_id: i64) -> (r: String)
    ensures
        r@ == unique_id_of(prefix@, plant_id as int),
{
    let mut t = String::from_str(prefix);
    t.append("_plant_");
    push_decimal(&mut t, plant_id);
    assert(t@ =~= unique_id_of(prefix@, plant_id as int));
    t
}

/// The wildcard patterns that match every plant's config, state and
/// attributes topics under `prefix`.
pub open spec fn patterns_of(prefix: Seq<char>) -> Seq<Seq<char>> {
    seq![
        "homeassistant/sensor/"@ + prefix + "_plant_+/config"@,
        prefix + "/plant/+/state"@,
        prefix + "/plant/+/attributes"@,
    ]
}

/// Strings as character sequences.
pub open spec fn strings_view(v: Seq<String>) -> Seq<Seq<char>> {
    v.map_values(|s: String| s@)
}

/// The wildcard patterns that match every plant's config, state and
/// attributes topics under `prefix`.
pub fn subscription_patterns(prefix: &str) -> (r: Vec<String>)
    ensures
        strings_view(r@) == patterns_of(prefix@),
{
    let mut config = String::from_str("homeassistant/sensor/");
    config.append(prefix);
    config.append("_plant_+/config");
    let mut state = String::from_str(prefix);
    state.append("/plant/+/state");
    let mut attributes = String::from_str(prefix);
    attributes.append("/plant/+/attributes");
    let mut r: Vec<String> = Vec::new();
    r.push(config);
    r.push(state);
    r.push(attributes);
    assert(strings_view(r@) =~= patterns_of(prefix@));
    r
}

/// The part of `s` between `pre` and `suf`, as `between` states it.
fn between_chars(s: &[char], pre: &[char], suf: &[char]) -> (r: Option<Vec<char>>)
    ensures
        match r {
            Some(v) => between(s@, pre@, suf@) == Some(v@),
            None => between(s@, pre@, suf@) is None,
        },
{
    if !starts_with(s, pre) {
        return None;
    }
    let rest = sub_chars(s, pre.len(), s.len());
    if !ends_with(rest.as_slice(), suf) {
        return None;
    }
    let mid = sub_chars(s, pre.len(), s.len() - suf.len());
    Some(mid)
}

/// The characters of `a` followed by those of `b` and `c`.
fn joined(a: &str, b: &str, c: &str) -> (r: Vec<char>)
    ensures
        r@ == a@ + b@ + c@,
{
    let mut t = String::from_str(a);
    t.append(b);
    t.append(c);
    chars_of(t.as_str())
}

/// The plant ID that a topic names, if it has one of the three known shapes
/// for `prefix` and its ID segment reads as an `i64`.
pub fn extract_plant_id(topic: &str, prefix: &str) -> (r: Option<i64>)
    ensures
        r == extract_id(topic@, prefix@),
{
    let t = chars_of(topic);
    let config_pre = joined("homeassistant/sensor/", prefix, "_plant_");
    let plant_pre = joined(prefix, "/plant/", "");
    proof {
        reveal_strlit("");
        assert(plant_pre@ =~= prefix@ + "/plant/"@);
    }
    let config_suf = chars_of("/config");
    if let Some(id) = between_chars(t.as_slice(), config_pre.as_slice(), config_suf.as_slice()) {
        return parse_i64(id.as_slice());
    }
    let state_suf = chars_of("/state");
    if let Some(id) = between_chars(t.as_slice(), plant_pre.as_slice(), state_suf.as_slice()) {
        return parse_i64(id.as_slice());
    }
    let attributes_suf = chars_of("/attributes");
    if let Some(id) = between_chars(t.as_slice(), plant_pre.as_slice(), attributes_suf.as_slice()) {
        return parse_i64(id.as_slice());
    }
    None
}

/// The piece between a prefix and a suffix that were put around it.
proof fn lemma_between_parts(pre: Seq<char>, mid: Seq<char>, suf: Seq<char>)
    ensures
        between(pre + mid + suf, pre, suf) == Some(mid),
{
    let s = pre + mid + suf;
    assert(s.subrange(0, pre.len() as int) =~= pre);
    let rest = s.subrange(pre.len() as int, s.len() as int);
    assert(rest =~= mid + suf);
    assert(rest.subrange(rest.len() - suf.len(), rest.len() as int) =~= suf);
    assert(s.subrange(pre.len() as int, s.len() - suf.len()) =~= mid);
}

/// A string ending in `e` has no suffix `suf` that ends otherwise.
proof fn lemma_no_between_by_last(s: Seq<char>, pre: Seq<char>, suf: Seq<char>)
    requires
        s.len() > 0,
        suf.len() > 0,
        s.last() != suf.last(),
    ensures
        between(s, pre, suf) is None,
{
    if has_prefix(s, pre) {
        let rest = s.subrange(pre.len() as int, s.len() as int);
        if has_suffix(rest, suf) {
            assert(rest.subrange(rest.len() - suf.len(), rest.len() as int)[suf.len() - 1] == rest[rest.len() - 1]);
            assert(rest[rest.len() - 1] == s[s.len() - 1]);
        }
    }
}

/// Each of a plant's three topics names that plant again.
pub proof fn lemma_topics_name_their_plant(prefix: Seq<char>, id: i64)
    ensures
        extract_id(config_topic_of(prefix, id as int), prefix) == Some(id),
        extract_id(state_topic_of(prefix, id as int), prefix) == Some(id),
        extract_id(attributes_topic_of(prefix, id as int), prefix) == Some(id),
{
    reveal_strlit("homeassistant/sensor/");
    reveal_strlit("_plant_");
    reveal_strlit("/plant/");
    reveal_strlit("/config");
    reveal_strlit("/state");
    reveal_strlit("/attributes");
    lemma_decimal_reads_back(id);
    let d = decimal(id as int);
    let config_pre = "homeassistant/sensor/"@ + prefix + "_plant_"@;
    let plant_pre = prefix + "/plant/"@;

    let c = config_topic_of(prefix, id as int);
    assert(c =~= config_pre + d + "/config"@);
    lemma_between_parts(config_pre, d, "/config"@);

    let st = state_topic_of(prefix, id as int);
    assert(st =~= plant_pre + d + "/state"@);
    assert(st.last() == 'e');
    lemma_no_between_by_last(st, config_pre, "/config"@);
    lemma_between_parts(plant_pre, d, "/state"@);

    let at = attributes_topic_of(prefix, id as int);
    assert(at =~= plant_pre + d + "/attributes"@);
    assert(at.last() == 's');
    lemma_no_between_by_last(at, config_pre, "/config"@);
    lemma_no_between_by_last(at, plant_pre, "/state"@);
    lemma_between_parts(plant_pre, d, "/attributes"@);
}

/// A topic of one of the three shapes names whatever its ID segment reads
/// as: an `i64` literal gives that number, anything else (letters, an empty
/// segment, a number out of range) gives none.
pub proof fn lemma_topic_id_is_its_segment(prefix: Seq<char>, segment: Seq<char>)
    ensures
        extract_id("homeassistant/sensor/"@ + prefix + "_plant_"@ + segment + "/config"@, prefix)
            == i64_literal(segment),
        extract_id(prefix + "/plant/"@ + segment + "/state"@, prefix) == i64_literal(segment),
        extract_id(prefix + "/plant/"@ + segment + "/attributes"@, prefix) == i64_literal(segment),
{
    reveal_strlit("homeassistant/sensor/");
    reveal_strlit("_plant_");
    reveal_strlit("/plant/");
    reveal_strlit("/config");
    reveal_strlit("/state");
    reveal_strlit("/attributes");
    let config_pre = "homeassistant/sensor/"@ + prefix + "_plant_"@;
    let plant_pre = prefix + "/plant/"@;

    let c = "homeassistant/sensor/"@ + prefix + "_plant_"@ + segment + "/config"@;
    assert(c =~= config_pre + segment + "/config"@);
    lemma_between_parts(config_pre, segment, "/config"@);

    let st = prefix + "/plant/"@ + segment + "/state"@;
    assert(st =~= plant_pre + segment + "/state"@);
    assert(st.last() == 'e');
    lemma_no_between_by_last(st, config_pre, "/config"@);
    lemma_between_parts(plant_pre, segment, "/state"@);

    let at = prefix + "/plant/"@ + segment + "/attributes"@;
    assert(at =~= plant_pre + segment + "/attributes"@);
    assert(at.last() == 's');
    lemma_no_between_by_last(at, config_pre, "/config"@);
    lemma_no_between_by_last(at, plant_pre, "/state"@);
    lemma_between_parts(plant_pre, segment, "/attributes"@);
}

} // verus!
