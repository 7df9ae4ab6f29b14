use chrono::Datelike;
use flowl::plants::{CreatePlant, Plant, PlantRow, UpdatePlant};
use flowl::validation::{validate_all_care_info, validate_care_info};
use flowl::watering::{compute_watering_status, status_on, watering_status_on, WateringStatus};
use flowl::error::ApiError;

fn day_of(text: &str) -> i32 {
    text.parse::<chrono::NaiveDate>().unwrap().num_days_from_ce()
}

#[test]
fn status_never_watered() {
    let (status, next_due) = compute_watering_status(None, 7);
    assert_eq!(status, "due");
    assert!(next_due.is_none());
}

#[test]
fn status_ok() {
    let today = chrono::Utc::now().date_naive();
    let yesterday = (today - chrono::Days::new(1)).to_string();
    let (status, next_due) = compute_watering_status(Some(&yesterday), 7);
    assert_eq!(status, "ok");
    assert!(next_due.is_some());
}

#[test]
fn status_due_today() {
    let today = chrono::Utc::now().date_naive();
    let watered = (today - chrono::Days::new(7)).to_string();
    let (status, next_due) = compute_watering_status(Some(&watered), 7);
    assert_eq!(status, "due");
    assert_eq!(next_due.as_deref(), Some(today.to_string().as_str()));
}

#[test]
fn status_overdue() {
    let today = chrono::Utc::now().date_naive();
    let watered = (today - chrono::Days::new(10)).to_string();
    let (status, next_due) = compute_watering_status(Some(&watered), 7);
    assert_eq!(status, "overdue");
    assert!(next_due.is_some());
}

#[test]
fn status_on_fixed_day_is_repeatable() {
    let a = watering_status_on(Some("2026-02-10T08:00:00Z"), 7, day_of("2026-02-15"));
    let b = watering_status_on(Some("2026-02-10T08:00:00Z"), 7, day_of("2026-02-15"));
    assert_eq!(a, b);
    assert_eq!(a, ("ok".to_string(), Some("2026-02-17".to_string())));
}

#[test]
fn never_watered_is_due_for_any_interval() {
    for n in [-3i64, 0, 1, 7, 365] {
        assert_eq!(status_on(None, n, 1000), (WateringStatus::Due, None));
        assert_eq!(watering_status_on(None, n, 1000), ("due".to_string(), None));
    }
}

#[test]
fn watered_one_interval_ago_is_due_today() {
    let today = day_of("2026-03-01");
    for n in [0i64, 1, 7, 30] {
        let (status, next_due) = status_on(Some(today - n as i32), n, today);
        assert_eq!(status, WateringStatus::Due);
        assert_eq!(next_due, Some(today as i128));
    }
    let (status, next_due) = watering_status_on(Some("2026-02-22"), 7, today);
    assert_eq!(status, "due");
    assert_eq!(next_due.as_deref(), Some("2026-03-01"));
}

#[test]
fn watered_past_the_interval_is_overdue() {
    let today = day_of("2026-03-01");
    for n in [0i64, 1, 7, 30] {
        let (status, _) = status_on(Some(today - n as i32 - 1), n, today);
        assert_eq!(status, WateringStatus::Overdue);
    }
}

#[test]
fn watered_yesterday_is_ok() {
    let today = day_of("2026-03-01");
    for n in [2i64, 3, 7, 90] {
        let (status, _) = status_on(Some(today - 1), n, today);
        assert_eq!(status, WateringStatus::Okay);
    }
}

#[test]
fn negative_interval_counts_as_zero() {
    let today = day_of("2026-03-01");
    let (status, next_due) = watering_status_on(Some("2026-03-01"), -5, today);
    assert_eq!(status, "due");
    assert_eq!(next_due.as_deref(), Some("2026-03-01"));
}

#[test]
fn unreadable_date_is_due_without_next_date() {
    let today = day_of("2026-03-01");
    assert_eq!(watering_status_on(Some("not a date"), 7, today), ("due".to_string(), None));
    assert_eq!(watering_status_on(Some(""), 7, today), ("due".to_string(), None));
}

#[test]
fn time_of_day_is_ignored() {
    let today = day_of("2026-03-01");
    let (status, next_due) = watering_status_on(Some("2026-02-20T23:59:59Z"), 7, today);
    assert_eq!(status, "overdue");
    assert_eq!(next_due.as_deref(), Some("2026-02-27"));
}

#[test]
fn status_names() {
    assert_eq!(WateringStatus::Okay.as_str(), "ok");
    assert_eq!(WateringStatus::Due.as_str(), "due");
    assert_eq!(WateringStatus::Overdue.as_str(), "overdue");
}

#[test]
fn care_info_valid_values() {
    assert!(
        validate_care_info(
            "difficulty",
            Some("easy"),
            &["easy", "moderate", "demanding"]
        )
        .is_ok()
    );
    assert!(
        validate_care_info(
            "difficulty",
            Some("moderate"),
            &["easy", "moderate", "demanding"]
        )
        .is_ok()
    );
    assert!(
        validate_care_info(
            "difficulty",
            Some("demanding"),
            &["easy", "moderate", "demanding"]
        )
        .is_ok()
    );
    assert!(validate_care_info("pet_safety", Some("safe"), &["safe", "caution", "toxic"]).is_ok());
    assert!(
        validate_care_info("growth_speed", Some("slow"), &["slow", "moderate", "fast"]).is_ok()
    );
    assert!(
        validate_care_info(
            "soil_type",
            Some("cactus-mix"),
            &["standard", "cactus-mix", "orchid-bark", "peat-moss"]
        )
        .is_ok()
    );
}

#[test]
fn care_info_null_allowed() {
    assert!(validate_care_info("difficulty", None, &["easy", "moderate", "demanding"]).is_ok());
}

#[test]
fn care_info_invalid_value() {
    let result = validate_care_info(
        "difficulty",
        Some("impossible"),
        &["easy", "moderate", "demanding"],
    );
    assert!(result.is_err());
}

#[test]
fn care_info_invalid_value_message() {
    match validate_care_info("difficulty", Some("impossible"), &["easy"]) {
        Err(ApiError::Validation(m)) => assert_eq!(m, "Invalid value for difficulty: \"impossible\""),
        other => panic!("unexpected {other:?}"),
    }
}

#[test]
fn all_care_info_reports_first_failure() {
    assert!(validate_all_care_info(Some("easy"), Some("toxic"), Some("fast"), Some("peat-moss"), Some("moist")).is_ok());
    assert!(validate_all_care_info(None, None, None, None, None).is_ok());
    match validate_all_care_info(Some("easy"), Some("unknown"), None, Some("clay"), None) {
        Err(ApiError::Validation(m)) => assert_eq!(m, "Invalid value for pet_safety: \"unknown\""),
        other => panic!("unexpected {other:?}"),
    }
    match validate_all_care_info(None, None, None, None, Some("soaked")) {
        Err(ApiError::Validation(m)) => assert_eq!(m, "Invalid value for soil_moisture: \"soaked\""),
        other => panic!("unexpected {other:?}"),
    }
}

fn create(name: Option<&str>) -> CreatePlant {
    CreatePlant {
        name: name.map(|s| s.to_string()),
        species: None,
        icon: None,
        location_id: None,
        watering_interval_days: None,
        light_needs: None,
        difficulty: None,
        pet_safety: None,
        growth_speed: None,
        soil_type: None,
        soil_moisture: None,
        notes: None,
    }
}

#[test]
fn create_plant_defaults() {
    let f = create(Some("  Fern ")).resolve().ok().unwrap();
    assert_eq!(f.name, "Fern");
    assert_eq!(f.icon, "\u{1fab4}");
    assert_eq!(f.watering_interval_days, 7);
    assert_eq!(f.light_needs, "indirect");
    assert!(f.difficulty.is_none());
}

#[test]
fn create_plant_requires_name() {
    for name in [None, Some(""), Some("   ")] {
        match create(name).resolve() {
            Err(ApiError::Validation(m)) => assert_eq!(m, "Name is required"),
            _ => panic!("name accepted"),
        }
    }
}

#[test]
fn create_plant_rejects_bad_care_info() {
    let mut c = create(Some("Fern"));
    c.difficulty = Some("impossible".to_string());
    match c.resolve() {
        Err(ApiError::Validation(m)) => assert_eq!(m, "Invalid value for difficulty: \"impossible\""),
        _ => panic!("care info accepted"),
    }
}

fn row() -> PlantRow {
    PlantRow {
        id: 3,
        name: "Rose".to_string(),
        species: None,
        icon: "x".to_string(),
        photo_path: Some("abc.jpg".to_string()),
        location_id: Some(2),
        location_name: Some("Patio".to_string()),
        watering_interval_days: 7,
        last_watered: Some("2026-02-22T10:00:00Z".to_string()),
        light_needs: "indirect".to_string(),
        difficulty: Some("easy".to_string()),
        pet_safety: None,
        growth_speed: None,
        soil_type: None,
        soil_moisture: None,
        notes: None,
        created_at: "c".to_string(),
        updated_at: "u".to_string(),
    }
}

#[test]
fn plant_view_of_row() {
    let p = Plant::from_row_on(row(), day_of("2026-03-01"));
    assert_eq!(p.id, 3);
    assert_eq!(p.photo_url.as_deref(), Some("/uploads/abc.jpg"));
    assert_eq!(p.watering_status, "due");
    assert_eq!(p.next_due.as_deref(), Some("2026-03-01"));
    assert_eq!(p.location_name.as_deref(), Some("Patio"));
}

#[test]
fn update_plant_merges_and_clears() {
    let u = UpdatePlant {
        name: Some("Rosa".to_string()),
        species: None,
        icon: None,
        location_id: Some(None),
        watering_interval_days: None,
        light_needs: None,
        difficulty: Some(None),
        pet_safety: Some(Some("toxic".to_string())),
        growth_speed: None,
        soil_type: None,
        soil_moisture: None,
        notes: None,
    };
    let f = u.merge(row()).ok().unwrap();
    assert_eq!(f.name, "Rosa");
    assert_eq!(f.location_id, None);
    assert_eq!(f.difficulty, None);
    assert_eq!(f.pet_safety.as_deref(), Some("toxic"));
    assert_eq!(f.watering_interval_days, 7);
    assert_eq!(f.icon, "x");
}

#[test]
fn update_plant_rejects_bad_care_info() {
    let u = UpdatePlant {
        name: None,
        species: None,
        icon: None,
        location_id: None,
        watering_interval_days: None,
        light_needs: None,
        difficulty: None,
        pet_safety: Some(Some("unknown".to_string())),
        growth_speed: None,
        soil_type: None,
        soil_moisture: None,
        notes: None,
    };
    assert!(matches!(u.merge(row()), Err(ApiError::Validation(_))));
}
