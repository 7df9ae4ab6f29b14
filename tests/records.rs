use flowl::archive::{check_version, photo_file_name, split_dots, validate_filename};
use flowl::care::{
    duplicate_location, photo_archive_path, CareEvent, CareEventsPage, CreateCareEvent,
    CreateLocation, GlobalCareQuery,
};
use flowl::config::Config;
use flowl::db::should_create_parent_dirs;
use flowl::error::ApiError;
use flowl::validation::{page_limit, validate_event_type};

#[test]
fn defaults() {
    let config = Config::from_values(None, None, None, None, None, None, None);
    assert_eq!(config.port, 4100);
    assert_eq!(config.db_path, "/data/flowl.db");
    assert_eq!(config.mqtt_host, "localhost");
    assert_eq!(config.mqtt_port, 1883);
    assert_eq!(config.mqtt_topic_prefix, "flowl");
    assert_eq!(config.log_level, "info");
}

#[test]
fn custom_values() {
    let config = Config::from_values(
        Some("3000"),
        Some("/tmp/test.db"),
        Some("broker.local"),
        Some("1884"),
        Some("myplants"),
        Some("debug"),
        Some("true"),
    );
    assert_eq!(config.port, 3000);
    assert_eq!(config.db_path, "/tmp/test.db");
    assert_eq!(config.mqtt_host, "broker.local");
    assert_eq!(config.mqtt_port, 1884);
    assert_eq!(config.mqtt_topic_prefix, "myplants");
    assert_eq!(config.log_level, "debug");
    assert!(config.mqtt_disabled);
}

#[test]
fn mqtt_disabled_defaults_false() {
    let config = Config::from_values(None, None, None, None, None, None, None);
    assert!(!config.mqtt_disabled);
}

#[test]
fn invalid_mqtt_disabled_falls_back_to_default() {
    let config = Config::from_values(None, None, None, None, None, None, Some("not_a_bool"));
    assert!(!config.mqtt_disabled);
}

#[test]
fn invalid_port_falls_back_to_default() {
    let config = Config::from_values(Some("not_a_number"), None, None, None, None, None, None);
    assert_eq!(config.port, 4100);
}

#[test]
fn port_parsing_edges() {
    let port = |v: &str| Config::from_values(Some(v), None, None, None, None, None, None).port;
    assert_eq!(port("65535"), 65535);
    assert_eq!(port("65536"), 4100);
    assert_eq!(port("+80"), 80);
    assert_eq!(port("-0"), 4100);
    assert_eq!(port(""), 4100);
    assert_eq!(port("0080"), 80);
    let flag = |v: &str| Config::from_values(None, None, None, None, None, None, Some(v)).mqtt_disabled;
    assert!(!flag("false"));
    assert!(!flag("TRUE"));
}

#[test]
fn version_checks() {
    assert!(check_version("1.2.3", "1.2.9").is_ok());
    assert!(check_version("1.2", "1.2.0").is_ok());
    match check_version("99.0.0", "0.1.0") {
        Err(ApiError::BadRequest(m)) => {
            assert_eq!(m, "Version mismatch: server is 0.1.0, archive is 99.0.0");
        },
        other => panic!("unexpected {other:?}"),
    }
    match check_version("1", "1.2.0") {
        Err(ApiError::BadRequest(m)) => {
            assert_eq!(m, "Invalid version format: expected '1.2.0', got '1'");
        },
        other => panic!("unexpected {other:?}"),
    }
    assert!(check_version("1.3.0", "1.2.0").is_err());
}

#[test]
fn dot_split_matches_std() {
    for s in ["", ".", "1.2.3", "a..b", "x.", ".y"] {
        let got: Vec<String> = split_dots(s).iter().map(|v| v.iter().collect()).collect();
        let want: Vec<String> = s.split('.').map(|p| p.to_string()).collect();
        assert_eq!(got, want);
    }
}

#[test]
fn archive_entry_names() {
    assert!(validate_filename("data.json").is_ok());
    assert!(validate_filename("photos/a.jpg").is_ok());
    match validate_filename("../data.json") {
        Err(ApiError::BadRequest(m)) => assert_eq!(m, "Invalid filename in archive: ../data.json"),
        other => panic!("unexpected {other:?}"),
    }
    assert!(validate_filename("/etc/passwd").is_err());
    assert!(validate_filename("\\x").is_err());
    assert!(validate_filename("photos/a..b").is_err());
}

#[test]
fn photo_entries() {
    assert_eq!(photo_file_name("photos/a.jpg").as_deref(), Some("a.jpg"));
    assert_eq!(photo_file_name("photos/"), None);
    assert_eq!(photo_file_name("data.json"), None);
    assert_eq!(photo_archive_path("a.jpg"), "photos/a.jpg");
}

#[test]
fn parent_dirs() {
    assert!(!should_create_parent_dirs(":memory:"));
    assert!(!should_create_parent_dirs("sqlite://x/y.db"));
    assert!(!should_create_parent_dirs("file:/x/y.db"));
    assert!(!should_create_parent_dirs("flowl.db"));
    assert!(should_create_parent_dirs("/data/flowl.db"));
    assert!(should_create_parent_dirs("data/flowl.db"));
}

#[test]
fn event_types() {
    for t in ["watered", "fertilized", "repotted", "pruned", "custom"] {
        assert!(validate_event_type(t).is_ok());
    }
    match validate_event_type("unknown") {
        Err(ApiError::Validation(m)) => assert_eq!(
            m,
            "Invalid event_type 'unknown'. Must be one of: watered, fertilized, repotted, pruned, custom"
        ),
        other => panic!("unexpected {other:?}"),
    }
}

#[test]
fn new_care_event_type() {
    let c = |t: Option<&str>| CreateCareEvent { event_type: t.map(|s| s.to_string()), notes: None, occurred_at: None };
    assert_eq!(c(Some("pruned")).checked_event_type().ok().as_deref(), Some("pruned"));
    for t in [None, Some(""), Some("  ")] {
        match c(t).checked_event_type() {
            Err(ApiError::Validation(m)) => assert_eq!(m, "event_type is required"),
            other => panic!("unexpected {other:?}"),
        }
    }
    assert!(matches!(c(Some("unknown")).checked_event_type(), Err(ApiError::Validation(_))));
}

#[test]
fn care_page_query() {
    assert_eq!(page_limit(None), 20);
    assert_eq!(page_limit(Some(0)), 1);
    assert_eq!(page_limit(Some(500)), 100);
    let q = GlobalCareQuery { limit: Some(2), before: Some(17), event_type: Some("watered".to_string()) };
    assert_eq!(
        q.sql().ok().unwrap(),
        "SELECT ce.id, ce.plant_id, p.name AS plant_name, ce.event_type, ce.notes, ce.occurred_at, ce.created_at \
FROM care_events ce JOIN plants p ON ce.plant_id = p.id WHERE ce.id < 17 AND ce.event_type = 'watered' \
ORDER BY ce.occurred_at DESC, ce.id DESC LIMIT 3"
    );
    let q = GlobalCareQuery { limit: None, before: None, event_type: None };
    assert!(q.sql().ok().unwrap().ends_with("p.id ORDER BY ce.occurred_at DESC, ce.id DESC LIMIT 21"));
    let q = GlobalCareQuery { limit: None, before: None, event_type: Some("invalid".to_string()) };
    assert!(matches!(q.sql(), Err(ApiError::Validation(_))));
}

fn event(id: i64) -> CareEvent {
    CareEvent {
        id,
        plant_id: 1,
        plant_name: "P".to_string(),
        event_type: "watered".to_string(),
        notes: None,
        occurred_at: "t".to_string(),
        created_at: "t".to_string(),
    }
}

#[test]
fn care_page_cut() {
    let page = CareEventsPage::from_rows(vec![event(3), event(2), event(1)], 2);
    assert!(page.has_more);
    assert_eq!(page.events.iter().map(|e| e.id).collect::<Vec<_>>(), vec![3, 2]);
    let page = CareEventsPage::from_rows(vec![event(3), event(2)], 2);
    assert!(!page.has_more);
    assert_eq!(page.events.len(), 2);
}

#[test]
fn location_names() {
    let c = CreateLocation { name: Some(" Kitchen ".to_string()) };
    assert_eq!(c.checked_name().ok().as_deref(), Some("Kitchen"));
    assert!(CreateLocation { name: None }.checked_name().is_err());
    match duplicate_location("Kitchen") {
        ApiError::Conflict(m) => assert_eq!(m, "Location 'Kitchen' already exists"),
        other => panic!("unexpected {other:?}"),
    }
}

#[test]
fn error_status_codes() {
    assert_eq!(ApiError::NotFound(String::new()).status_code(), 404);
    assert_eq!(ApiError::Validation(String::new()).status_code(), 422);
    assert_eq!(ApiError::Conflict(String::new()).status_code(), 409);
    assert_eq!(ApiError::BadRequest(String::new()).status_code(), 400);
    assert_eq!(ApiError::ServiceUnavailable("x".to_string()).status_code(), 503);
    assert_eq!(ApiError::ServiceUnavailable("x".to_string()).message(), "x");
}
