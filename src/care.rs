//! Care events, the global care log's pages, and the plain records of
//! locations, statistics and backups.
use vstd::prelude::*;
use vstd::string::*;
use crate::error::ApiError;
use crate::validation::{
    care_page_query, care_page_sql, event_type_message, event_types, finish_page,
    page_limit, page_size, require_event_type, require_name, required_name,
};
use crate::text::{as_opt_str, opt_string, trimmed};

verus! {

/// A care event of a plant, with the plant's name.
pub struct CareEvent {
    pub id: i64,
    pub plant_id: i64,
    pub plant_name: String,
    pub event_type: String,
    pub notes: Option<String>,
    pub occurred_at: String,
    pub created_at: String,
}

/// A request to record a care event.
pub struct CreateCareEvent {
    pub event_type: Option<String>,
    pub notes: Option<String>,
    pub occurred_at: Option<String>,
}

impl CreateCareEvent {
    /// The event type to record: required, not blank, and one of the care
    /// event types.
    pub fn checked_event_type(&self) -> (r: Result<String, ApiError>)
        ensures
            match self.event_type {
                None => r matches Err(ApiError::Validation(m)) && m@ == "event_type is required"@,
                Some(t) => if trimmed(t@).len() == 0 {
                    r matches Err(ApiError::Validation(m)) && m@ == "event_type is required"@
                } else if event_types().contains(t@) {
                    r matches Ok(s) && s@ == t@
                } else {
                    r matches Err(ApiError::Validation(m)) && m@ == event_type_message(t@)
                },
            },
    {
        require_event_type(as_opt_str(&self.event_type))
    }
}

/// The query parameters of the global care log.
pub struct GlobalCareQuery {
    pub limit: Option<i64>,
    pub before: Option<i64>,
    pub event_type: Option<String>,
}

impl GlobalCareQuery {
    /// The page size these parameters ask for.
    pub fn page_size(&self) -> (r: i64)
        ensures
            r == page_size(self.limit),
            1 <= r <= 100,
    {
        page_limit(self.limit)
    }

    /// The query for the page these parameters ask for.
    pub fn sql(&self) -> (r: Result<String, ApiError>)
        ensures
            match self.event_type {
                Some(t) if !event_types().contains(t@) => r matches Err(ApiError::Validation(m))
                    && m@ == event_type_message(t@),
                _ => r matches Ok(q) && q@ == care_page_query(self.limit, self.before, opt_string(self.event_type)),
            },
    {
        care_page_sql(self.limit, self.before, as_opt_str(&self.event_type))
    }
}

/// One page of the global care log.
pub struct CareEventsPage {
    pub events: Vec<CareEvent>,
    pub has_more: bool,
}

impl CareEventsPage {
    /// The page made of the rows fetched for it, which are one more than
    /// the page size when more events follow.
    pub fn from_rows(rows: Vec<CareEvent>, page_size: i64) -> (r: CareEventsPage)
        requires
            1 <= page_size,
        ensures
            r.has_more == (rows@.len() > page_size),
            r.events@ == if r.has_more { rows@.drop_last() } else { rows@ },
    {
        let (events, has_more) = finish_page(rows, page_size);
        CareEventsPage { events, has_more }
    }
}

/// A location, with the number of plants placed there.
pub struct Location {
    pub id: i64,
    pub name: String,
    pub plant_count: i64,
}

/// A request to create a location.
pub struct CreateLocation {
    pub name: Option<String>,
}

/// A request to rename a location.
pub struct UpdateLocation {
    pub name: Option<String>,
}

impl CreateLocation {
    /// The trimmed name of the new location; it is required.
    pub fn checked_name(&self) -> (r: Result<String, ApiError>)
        ensures
            match required_name(opt_string(self.name)) {
                Some(n) => r matches Ok(t) && t@ == n,
                None => r matches Err(ApiError::Validation(m)) && m@ == "Name is required"@,
            },
    {
        require_name(as_opt_str(&self.name))
    }
}

impl UpdateLocation {
    /// The trimmed new name of the location; it is required.
    pub fn checked_name(&self) -> (r: Result<String, ApiError>)
        ensures
            match required_name(opt_string(self.name)) {
                Some(n) => r matches Ok(t) && t@ == n,
                None => r matches Err(ApiError::Validation(m)) && m@ == "Name is required"@,
            },
    {
        require_name(as_opt_str(&self.name))
    }
}

/// The message refusing a location name that is already taken.
pub open spec fn duplicate_location_message(name: Seq<char>) -> Seq<char> {
    "Location '"@ + name + "' already exists"@
}

/// The conflict error for a location name that is already taken.
pub fn duplicate_location(name: &str) -> (r: ApiError)
    ensures
        r matches ApiError::Conflict(m) && m@ == duplicate_location_message(name@),
{
    let mut m = String::from_str("Location '");
    m.append(name);
    m.append("' already exists");
    assert(m@ =~= duplicate_location_message(name@));
    ApiError::Conflict(m)
}

/// Counts of stored records.
pub struct Stats {
    pub plant_count: i64,
    pub care_event_count: i64,
}

/// The counts of a finished restore.
pub struct ImportResult {
    pub locations: usize,
    pub plants: usize,
    pub care_events: usize,
    pub photos: usize,
}

/// A location in a backup.
pub struct ExportLocation {
    pub id: i64,
    pub name: String,
}

/// A plant in a backup, as the store holds it.
pub struct ExportPlant {
    pub id: i64,
    pub name: String,
    pub species: Option<String>,
    pub icon: String,
    pub photo_path: Option<String>,
    pub location_id: Option<i64>,
    pub watering_interval_days: i64,
    pub last_watered: Option<String>,
    pub light_needs: String,
    pub difficulty: Option<String>,
    pub pet_safety: Option<String>,
    pub growth_speed: Option<String>,
    pub soil_type: Option<String>,
    pub soil_moisture: Option<String>,
    pub notes: Option<String>,
    pub created_at: String,
    pub updated_at: String,
}

/// A care event in a backup.
pub struct ExportCareEvent {
    pub id: i64,
    pub plant_id: i64,
    pub event_type: String,
    pub notes: Option<String>,
    pub occurred_at: String,
    pub created_at: String,
}

/// The data of a backup.
pub struct ExportData {
    pub version: String,
    pub exported_at: String,
    pub locations: Vec<ExportLocation>,
    pub plants: Vec<ExportPlant>,
    pub care_events: Vec<ExportCareEvent>,
}

/// Where a stored photo goes in a backup archive.
pub fn photo_archive_path(photo_path: &str) -> (r: String)
    ensures
        r@ == "photos/"@ + photo_path@,
{
    let mut p = String::from_str("photos/");
    p.append(photo_path);
    p
}

} // verus!
