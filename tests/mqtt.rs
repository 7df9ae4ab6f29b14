use chrono::Datelike;
use flowl::checker::StateChecker;
use flowl::config::Config;
use flowl::error::ApiError;
use flowl::publish::{
    attributes_message, discovery_message, record_messages, removal_messages, republish_messages,
    state_message, PlantRecord,
};
use flowl::repair::{
    id_set, orphan_ids, plan_repair, set_elements, repair_messages, BrokerEvent, Discovery, DiscoveryAction,
};
use flowl::service::{repair_gate, repairs_after_restore, starts_checker, wants_client, MqttStatus};
use flowl::topics::{
    config_topic, extract_plant_id, subscription_patterns, unique_id, TopicSet,
};

#[test]
fn extract_plant_id_from_discovery_topic() {
    assert_eq!(
        extract_plant_id("homeassistant/sensor/flowl_plant_1/config", "flowl"),
        Some(1)
    );
    assert_eq!(
        extract_plant_id("homeassistant/sensor/flowl_plant_42/config", "flowl"),
        Some(42)
    );
    assert_eq!(
        extract_plant_id("homeassistant/sensor/myplants_plant_7/config", "myplants"),
        Some(7)
    );
}

#[test]
fn extract_plant_id_from_state_topic() {
    assert_eq!(extract_plant_id("flowl/plant/1/state", "flowl"), Some(1));
    assert_eq!(extract_plant_id("flowl/plant/99/state", "flowl"), Some(99));
    assert_eq!(
        extract_plant_id("myplants/plant/3/state", "myplants"),
        Some(3)
    );
}

#[test]
fn extract_plant_id_from_attributes_topic() {
    assert_eq!(
        extract_plant_id("flowl/plant/1/attributes", "flowl"),
        Some(1)
    );
    assert_eq!(
        extract_plant_id("flowl/plant/55/attributes", "flowl"),
        Some(55)
    );
}

#[test]
fn extract_plant_id_returns_none_for_unrelated_topics() {
    assert_eq!(extract_plant_id("some/other/topic", "flowl"), None);
    assert_eq!(
        extract_plant_id("homeassistant/sensor/other_sensor/config", "flowl"),
        None
    );
    assert_eq!(extract_plant_id("flowl/plant/abc/state", "flowl"), None);
    assert_eq!(extract_plant_id("flowl/plant/1/unknown", "flowl"), None);
}

#[test]
fn extract_plant_id_wrong_prefix() {
    assert_eq!(extract_plant_id("flowl/plant/1/state", "otherprefix"), None);
    assert_eq!(
        extract_plant_id("homeassistant/sensor/flowl_plant_1/config", "otherprefix"),
        None
    );
}

#[test]
fn extract_plant_id_edge_numbers() {
    assert_eq!(extract_plant_id("flowl/plant/-4/state", "flowl"), Some(-4));
    assert_eq!(extract_plant_id("flowl/plant/+4/state", "flowl"), Some(4));
    assert_eq!(extract_plant_id("flowl/plant//state", "flowl"), None);
    assert_eq!(extract_plant_id("flowl/plant/9223372036854775807/state", "flowl"), Some(i64::MAX));
    assert_eq!(extract_plant_id("flowl/plant/9223372036854775808/state", "flowl"), None);
    assert_eq!(extract_plant_id("flowl/plant/-9223372036854775808/attributes", "flowl"), Some(i64::MIN));
    assert_eq!(extract_plant_id("flowl/plant/1 /state", "flowl"), None);
}

#[test]
fn topics_round_trip_to_their_id() {
    let t = TopicSet::new("flowl", 42);
    assert_eq!(t.config, "homeassistant/sensor/flowl_plant_42/config");
    assert_eq!(t.state, "flowl/plant/42/state");
    assert_eq!(t.attributes, "flowl/plant/42/attributes");
    for topic in [&t.config, &t.state, &t.attributes] {
        assert_eq!(extract_plant_id(topic, "flowl"), Some(42));
    }
    assert_eq!(config_topic("p", -3), "homeassistant/sensor/p_plant_-3/config");
    assert_eq!(unique_id("flowl", 0), "flowl_plant_0");
}

#[test]
fn wildcard_patterns() {
    assert_eq!(
        subscription_patterns("flowl"),
        vec![
            "homeassistant/sensor/flowl_plant_+/config".to_string(),
            "flowl/plant/+/state".to_string(),
            "flowl/plant/+/attributes".to_string(),
        ]
    );
}

#[test]
fn discovery_payload_wire_shape() {
    let m = discovery_message("flowl", 42, "Fern \"big\"");
    assert_eq!(m.topic, "homeassistant/sensor/flowl_plant_42/config");
    assert!(m.retain);
    assert_eq!(
        m.payload,
        "{\"device\":{\"identifiers\":[\"flowl\"],\"manufacturer\":\"flowl\",\"name\":\"flowl\"},\
\"icon\":\"mdi:flower\",\"json_attributes_topic\":\"flowl/plant/42/attributes\",\
\"name\":\"Fern \\\"big\\\"\",\"state_topic\":\"flowl/plant/42/state\",\"unique_id\":\"flowl_plant_42\"}"
    );
    let v: serde_json::Value = serde_json::from_str(&m.payload).unwrap();
    assert_eq!(v["name"], "Fern \"big\"");
}

#[test]
fn state_payload_is_bare_status() {
    let m = state_message("flowl", 7, "overdue");
    assert_eq!(m.topic, "flowl/plant/7/state");
    assert_eq!(m.payload, "overdue");
    assert!(m.retain);
}

#[test]
fn attributes_payload_wire_shape() {
    let m = attributes_message("flowl", 7, Some("2026-02-10T08:00:00Z"), Some("2026-02-17"), 7);
    assert_eq!(m.topic, "flowl/plant/7/attributes");
    assert_eq!(
        m.payload,
        "{\"last_watered\":\"2026-02-10T08:00:00Z\",\"next_due\":\"2026-02-17\",\"watering_interval_days\":7}"
    );
    let m = attributes_message("flowl", 7, None, None, -2);
    assert_eq!(m.payload, "{\"last_watered\":null,\"next_due\":null,\"watering_interval_days\":-2}");
}

#[test]
fn removal_clears_three_topics() {
    let ms = removal_messages("flowl", 5);
    let topics: Vec<&str> = ms.iter().map(|m| m.topic.as_str()).collect();
    assert_eq!(
        topics,
        vec!["homeassistant/sensor/flowl_plant_5/config", "flowl/plant/5/state", "flowl/plant/5/attributes"]
    );
    assert!(ms.iter().all(|m| m.payload.is_empty() && m.retain));
}

fn record(id: i64, last: Option<&str>) -> PlantRecord {
    PlantRecord {
        id,
        name: format!("Plant {id}"),
        watering_interval_days: 7,
        last_watered: last.map(|s| s.to_string()),
    }
}

fn day_of(text: &str) -> i32 {
    text.parse::<chrono::NaiveDate>().unwrap().num_days_from_ce()
}

#[test]
fn record_messages_announce_and_refresh() {
    let r = record(1, Some("2026-02-22"));
    let today = day_of("2026-03-01");
    let all = record_messages("flowl", &r, today, true);
    assert_eq!(all.len(), 3);
    assert_eq!(all[1].payload, "due");
    let some = record_messages("flowl", &r, today, false);
    assert_eq!(some.len(), 2);
    assert_eq!(some[0].topic, "flowl/plant/1/state");
}

#[test]
fn first_tick_publishes_everything() {
    let rows = vec![record(1, None), record(2, Some("2026-02-28"))];
    let today = day_of("2026-03-01");
    let mut c = StateChecker::new();
    assert!(!c.begin_tick(true));
    let ms = c.apply_rows("flowl", &rows, today);
    assert_eq!(ms.len(), 6);
    assert!(!c.is_first_run());
}

#[test]
fn second_tick_without_change_publishes_nothing() {
    let rows = vec![record(1, None), record(2, Some("2026-02-28")), record(3, Some("2026-01-01"))];
    let today = day_of("2026-03-01");
    let mut c = StateChecker::new();
    assert!(!c.begin_tick(true));
    assert_eq!(c.apply_rows("flowl", &rows, today).len(), 9);
    assert!(!c.begin_tick(true));
    assert!(c.apply_rows("flowl", &rows, today).is_empty());
}

#[test]
fn status_change_and_new_plant_republish() {
    let today = day_of("2026-03-01");
    let mut c = StateChecker::new();
    c.begin_tick(true);
    c.apply_rows("flowl", &vec![record(1, Some("2026-02-28"))], today);
    c.begin_tick(true);
    let ms = c.apply_rows("flowl", &vec![record(1, Some("2026-02-28")), record(2, None)], today + 7);
    let topics: Vec<&str> = ms.iter().map(|m| m.topic.as_str()).collect();
    assert_eq!(
        topics,
        vec!["flowl/plant/1/state", "flowl/plant/1/attributes", "flowl/plant/2/state", "flowl/plant/2/attributes"]
    );
    assert_eq!(ms[0].payload, "overdue");
}

#[test]
fn deleted_plant_leaves_cache_and_returns_as_new() {
    let today = day_of("2026-03-01");
    let mut c = StateChecker::new();
    c.begin_tick(true);
    c.apply_rows("flowl", &vec![record(1, None), record(2, None)], today);
    c.begin_tick(true);
    assert!(c.apply_rows("flowl", &vec![record(1, None)], today).is_empty());
    c.begin_tick(true);
    assert_eq!(c.apply_rows("flowl", &vec![record(1, None), record(2, None)], today).len(), 2);
}

#[test]
fn reconnect_is_detected_once() {
    let today = day_of("2026-03-01");
    let mut c = StateChecker::new();
    assert!(!c.begin_tick(false));
    c.apply_rows("flowl", &vec![record(1, None)], today);
    assert!(!c.begin_tick(false));
    c.apply_rows("flowl", &vec![record(1, None)], today);
    assert!(c.begin_tick(true));
    assert!(!c.begin_tick(true));
    assert_eq!(c.apply_rows("flowl", &vec![record(1, None)], today).len(), 2);
}

#[test]
fn failed_query_ends_first_run() {
    let mut c = StateChecker::new();
    c.begin_tick(false);
    c.query_failed();
    assert!(!c.is_first_run());
}

#[test]
fn republish_covers_every_plant() {
    let rows = vec![record(4, None), record(9, None)];
    let ms = republish_messages("flowl", &rows, 0);
    assert_eq!(ms.len(), 6);
    assert_eq!(ms[3].topic, "homeassistant/sensor/flowl_plant_9/config");
}

#[test]
fn discovery_collects_ids() {
    let mut d = Discovery::new("flowl");
    match d.step(BrokerEvent::ConnAck) {
        DiscoveryAction::Subscribe(p) => assert_eq!(p.len(), 3),
        _ => panic!("no subscription"),
    }
    assert!(matches!(d.step(BrokerEvent::Publish("flowl/plant/3/state".to_string())), DiscoveryAction::Listen));
    d.step(BrokerEvent::Publish("flowl/plant/3/attributes".to_string()));
    d.step(BrokerEvent::Publish("homeassistant/sensor/flowl_plant_8/config".to_string()));
    d.step(BrokerEvent::Publish("other/topic".to_string()));
    d.step(BrokerEvent::Other);
    assert!(matches!(d.step(BrokerEvent::IdleTimeout), DiscoveryAction::Finish));
    assert!(d.reached());
    let mut ids: Vec<i64> = d.into_ids().into_iter().collect();
    ids.sort();
    assert_eq!(ids, vec![3, 8]);
}

#[test]
fn discovery_without_ack_is_unreached() {
    let mut d = Discovery::new("flowl");
    assert!(matches!(d.step(BrokerEvent::IdleTimeout), DiscoveryAction::Finish));
    assert!(!d.reached());
    assert!(d.into_ids().is_empty());
}

fn set(ids: &[i64]) -> std::collections::HashSet<i64> {
    ids.iter().copied().collect()
}

#[test]
fn repair_set_difference() {
    let plan = plan_repair(true, &set(&[1, 2, 3]), Some(&vec![2, 3, 4]));
    assert_eq!(plan.orphans, vec![1]);
    assert_eq!(plan.result.cleared, 1);
    assert_eq!(plan.result.published, 3);
    let plan = plan_repair(true, &set(&[3, 1, 2]), Some(&vec![4, 4, 3, 2]));
    assert_eq!(plan.orphans, vec![1]);
    assert_eq!(plan.result.cleared, 1);
    assert_eq!(plan.result.published, 3);
    let mut o = orphan_ids(&set(&[5, 6, 7]), &set(&[]));
    o.sort();
    assert_eq!(o, vec![5, 6, 7]);
    assert_eq!(id_set(&vec![2, 2, 9]), set(&[2, 9]));
    let mut all = set_elements(&set(&[4, 1]));
    all.sort();
    assert_eq!(all, vec![1, 4]);
}

#[test]
fn repair_with_unreachable_broker_is_zero() {
    let plan = plan_repair(false, &set(&[]), Some(&vec![2, 3, 4]));
    assert!(plan.orphans.is_empty());
    assert_eq!((plan.result.cleared, plan.result.published), (0, 0));
}

#[test]
fn repair_with_failed_query_is_zero() {
    let plan = plan_repair(true, &set(&[1]), None);
    assert!(plan.orphans.is_empty());
    assert_eq!((plan.result.cleared, plan.result.published), (0, 0));
}

#[test]
fn repair_messages_clear_then_republish() {
    let ms = repair_messages("flowl", &vec![1], &vec![record(2, None)], 0);
    assert_eq!(ms.len(), 6);
    assert!(ms[..3].iter().all(|m| m.payload.is_empty()));
    assert_eq!(ms[3].topic, "homeassistant/sensor/flowl_plant_2/config");
}

#[test]
fn mqtt_status_disabled() {
    let s = MqttStatus::describe(true, false, "broker.local", 1883, "flowl");
    assert_eq!(s.status, "disabled");
    assert!(s.broker.is_none());
    assert!(s.topic_prefix.is_none());
}

#[test]
fn mqtt_status_disconnected() {
    let s = MqttStatus::describe(false, false, "broker.local", 1883, "flowl");
    assert_eq!(s.status, "disconnected");
    assert_eq!(s.broker.as_deref(), Some("broker.local:1883"));
    assert_eq!(s.topic_prefix.as_deref(), Some("flowl"));
}

#[test]
fn mqtt_status_connected() {
    let s = MqttStatus::describe(false, true, "broker.local", 1883, "flowl");
    assert_eq!(s.status, "connected");
    assert_eq!(s.broker.as_deref(), Some("broker.local:1883"));
    assert_eq!(s.topic_prefix.as_deref(), Some("flowl"));
}

#[test]
fn mqtt_repair_disabled_returns_409() {
    match repair_gate(true, true, true) {
        Err(ApiError::Conflict(m)) => assert_eq!(m, "MQTT is disabled"),
        other => panic!("unexpected {other:?}"),
    }
}

#[test]
fn mqtt_repair_disconnected_returns_503() {
    match repair_gate(false, false, true) {
        Err(ApiError::ServiceUnavailable(m)) => assert_eq!(m, "MQTT is not connected"),
        other => panic!("unexpected {other:?}"),
    }
    match repair_gate(false, true, false) {
        Err(ApiError::ServiceUnavailable(m)) => assert_eq!(m, "MQTT client unavailable"),
        other => panic!("unexpected {other:?}"),
    }
    assert!(repair_gate(false, true, true).is_ok());
    assert!(repairs_after_restore(false, true, true));
    assert!(!repairs_after_restore(true, true, true));
}

#[test]
fn disabled_messaging_starts_nothing() {
    let c = Config::from_values(None, None, None, None, None, None, Some("true"));
    assert!(!wants_client(&c));
    assert!(!starts_checker(false));
    assert!(starts_checker(true));
    let s = MqttStatus::describe(c.mqtt_disabled, true, &c.mqtt_host, c.mqtt_port, &c.mqtt_topic_prefix);
    assert_eq!(s.status, "disabled");
    assert!(s.broker.is_none() && s.topic_prefix.is_none());
}
