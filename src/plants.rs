//! Plants as the API shows them, and the values that creating or updating
//! a plant stores.
use vstd::prelude::*;
use vstd::string::*;
use crate::error::ApiError;
use crate::text::{as_opt_str, opt_chars, opt_string, trim, trimmed};
use crate::validation::{first_care_refusal, require_name, required_name, validate_all_care_info};
use crate::watering::{watering_status_on, watering_text};

verus! {

/// A plant as the API returns it.
pub struct Plant {
    pub id: i64,
    pub name: String,
    pub species: Option<String>,
    pub icon: String,
    pub photo_url: Option<String>,
    pub location_id: Option<i64>,
    pub location_name: Option<String>,
    pub watering_interval_days: i64,
    pub watering_status: String,
    pub last_watered: Option<String>,
    pub next_due: Option<String>,
    pub light_needs: String,
    pub difficulty: Option<String>,
    pub pet_safety: Option<String>,
    pub growth_speed: Option<String>,
    pub soil_type: Option<String>,
    pub soil_moisture: Option<String>,
    pub notes: Option<String>,
    pub created_at: String,
    pub updated_at: String,
}

/// A plant as the store holds it, with its location's name and its last
/// watering joined in.
pub struct PlantRow {
    pub id: i64,
    pub name: String,
    pub species: Option<String>,
    pub icon: String,
    pub photo_path: Option<String>,
    pub location_id: Option<i64>,
    pub location_name: Option<String>,
    pub watering_interval_days: i64,
    pub last_watered: Option<String>,
    pub light_needs: String,
    pub difficulty: Option<String>,
    pub pet_safety: Option<String>,
    pub growth_speed: Option<String>,
    pub soil_type: Option<String>,
    pub soil_moisture: Option<String>,
    pub notes: Option<String>,
    pub created_at: String,
    pub updated_at: String,
}

/// The URL under which a stored photo is served.
pub open spec fn photo_url_of(photo_path: Option<Seq<char>>) -> Option<Seq<char>> {
    match photo_path {
        Some(p) => Some("/uploads/"@ + p),
        None => None,
    }
}

/// Whether `p` is the API view of `row` on day `today`.
pub open spec fn shows_row(p: Plant, row: PlantRow, today: int) -> bool {
    let w = watering_text(opt_string(row.last_watered), row.watering_interval_days as int, today);
    &&& p.id == row.id
    &&& p.name@ == row.name@
    &&& opt_string(p.species) == opt_string(row.species)
    &&& p.icon@ == row.icon@
    &&& opt_string(p.photo_url) == photo_url_of(opt_string(row.photo_path))
    &&& p.location_id == row.location_id
    &&& opt_string(p.location_name) == opt_string(row.location_name)
    &&& p.watering_interval_days == row.watering_interval_days
    &&& p.watering_status@ == w.0
    &&& opt_string(p.last_watered) == opt_string(row.last_watered)
    &&& opt_string(p.next_due) == w.1
    &&& p.light_needs@ == row.light_needs@
    &&& opt_string(p.difficulty) == opt_string(row.difficulty)
    &&& opt_string(p.pet_safety) == opt_string(row.pet_safety)
    &&& opt_string(p.growth_speed) == opt_string(row.growth_speed)
    &&& opt_string(p.soil_type) == opt_string(row.soil_type)
    &&& opt_string(p.soil_moisture) == opt_string(row.soil_moisture)
    &&& opt_string(p.notes) == opt_string(row.notes)
    &&& p.created_at@ == row.created_at@
    &&& p.updated_at@ == row.updated_at@
}

impl Plant {
    /// The API view of a stored plant on day `today`.
    pub fn from_row_on(row: PlantRow, today: i32) -> (r: Plant)
        ensures
            shows_row(r, row, today as int),
    {
        let (watering_status, next_due) = watering_status_on(
            as_opt_str(&row.last_watered),
            row.watering_interval_days,
            today,
        );
        let photo_url = match row.photo_path {
            Some(p) => {
                let mut u = String::from_str("/uploads/");
                u.append(p.as_str());
                Some(u)
            },
            None => None,
        };
        Plant {
            id: row.id,
            name: row.name,
            species: row.species,
            icon: row.icon,
            photo_url,
            location_id: row.location_id,
            location_name: row.location_name,
            watering_interval_days: row.watering_interval_days,
            watering_status,
            last_watered: row.last_watered,
            next_due,
            light_needs: row.light_needs,
            difficulty: row.difficulty,
            pet_safety: row.pet_safety,
            growth_speed: row.growth_speed,
            soil_type: row.soil_type,
            soil_moisture: row.soil_moisture,
            notes: row.notes,
            created_at: row.created_at,
            updated_at: row.updated_at,
        }
    }

    /// The API view of a stored plant on the current UTC day.
    pub fn from_row(row: PlantRow) -> (r: Plant)
        ensures
            exists|today: i32| shows_row(r, row, today as int),
    {
        let today = crate::watering::current_day();
        Plant::from_row_on(row, today)
    }
}

/// A request to create a plant.
pub struct CreatePlant {
    pub name: Option<String>,
    pub species: Option<String>,
    pub icon: Option<String>,
    pub location_id: Option<i64>,
    pub watering_interval_days: Option<i64>,
    pub light_needs: Option<String>,
    pub difficulty: Option<String>,
    pub pet_safety: Option<String>,
    pub growth_speed: Option<String>,
    pub soil_type: Option<String>,
    pub soil_moisture: Option<String>,
    pub notes: Option<String>,
}

/// A request to update a plant. For the nullable fields, the outer `None`
/// leaves the value as it is and `Some(None)` clears it.
pub struct UpdatePlant {
    pub name: Option<String>,
    pub species: Option<Option<String>>,
    pub icon: Option<String>,
    pub location_id: Option<Option<i64>>,
    pub watering_interval_days: Option<i64>,
    pub light_needs: Option<String>,
    pub difficulty: Option<Option<String>>,
    pub pet_safety: Option<Option<String>>,
    pub growth_speed: Option<Option<String>>,
    pub soil_type: Option<Option<String>>,
    pub soil_moisture: Option<Option<String>>,
    pub notes: Option<Option<String>>,
}

/// The values that the store keeps for a plant.
pub struct PlantFields {
    pub name: String,
    pub species: Option<String>,
    pub icon: String,
    pub location_id: Option<i64>,
    pub watering_interval_days: i64,
    pub light_needs: String,
    pub difficulty: Option<String>,
    pub pet_safety: Option<String>,
    pub growth_speed: Option<String>,
    pub soil_type: Option<String>,
    pub soil_moisture: Option<String>,
    pub notes: Option<String>,
}

/// An optional text that counts only when not blank.
pub open spec fn non_blank(s: Option<Seq<char>>) -> Option<Seq<char>> {
    match s {
        Some(t) => if trimmed(t).len() > 0 { Some(t) } else { None },
        None => None,
    }
}

/// The potted-plant emoji, the icon of a plant that names none.
pub open spec fn default_icon() -> Seq<char> {
    "\u{1fab4}"@
}

/// The care-info refusal of a set of plant values, if any.
pub open spec fn fields_refusal(f: PlantFields) -> Option<Seq<char>> {
    first_care_refusal(
        opt_string(f.difficulty),
        opt_string(f.pet_safety),
        opt_string(f.growth_speed),
        opt_string(f.soil_type),
        opt_string(f.soil_moisture),
    )
}

/// An optional string that counts only when not blank.
fn non_blank_or(s: Option<String>, default: &str) -> (r: String)
    ensures
        r@ == match non_blank(opt_string(s)) {
            Some(t) => t,
            None => default@,
        },
{
    match s {
        Some(t) => {
            if trim(t.as_str()).unicode_len() > 0 {
                t
            } else {
                String::from_str(default)
            }
        },
        None => String::from_str(default),
    }
}

/// Checks the care-info values of a set of plant values.
fn check_fields(f: &PlantFields) -> (r: Result<(), ApiError>)
    ensures
        match fields_refusal(*f) {
            None => r is Ok,
            Some(m) => r matches Err(ApiError::Validation(t)) && t@ == m,
        },
{
    validate_all_care_info(
        as_opt_str(&f.difficulty),
        as_opt_str(&f.pet_safety),
        as_opt_str(&f.growth_speed),
        as_opt_str(&f.soil_type),
        as_opt_str(&f.soil_moisture),
    )
}

impl CreatePlant {
    /// The values to store for a new plant. The name is required and
    /// trimmed; a blank icon or light need takes its default, a missing
    /// interval is seven days; the care-info values are checked.
    pub fn resolve(self) -> (r: Result<PlantFields, ApiError>)
        ensures
            required_name(opt_string(self.name)) is None ==> (r matches Err(ApiError::Validation(m))
                && m@ == "Name is required"@),
            required_name(opt_string(self.name)) is Some ==> match r {
                Ok(f) => {
                    &&& fields_refusal(f) is None
                    &&& f.name@ == required_name(opt_string(self.name))->0
                    &&& opt_string(f.species) == opt_string(self.species)
                    &&& f.icon@ == match non_blank(opt_string(self.icon)) {
                        Some(t) => t,
                        None => default_icon(),
                    }
                    &&& f.location_id == self.location_id
                    &&& f.watering_interval_days == match self.watering_interval_days {
                        Some(d) => d,
                        None => 7,
                    }
                    &&& f.light_needs@ == match non_blank(opt_string(self.light_needs)) {
                        Some(t) => t,
                        None => "indirect"@,
                    }
                    &&& opt_string(f.difficulty) == opt_string(self.difficulty)
                    &&& opt_string(f.pet_safety) == opt_string(self.pet_safety)
                    &&& opt_string(f.growth_speed) == opt_string(self.growth_speed)
                    &&& opt_string(f.soil_type) == opt_string(self.soil_type)
                    &&& opt_string(f.soil_moisture) == opt_string(self.soil_moisture)
                    &&& opt_string(f.notes) == opt_string(self.notes)
                },
                Err(e) => e matches ApiError::Validation(m) && first_care_refusal(
                    opt_string(self.difficulty),
                    opt_string(self.pet_safety),
                    opt_string(self.growth_speed),
                    opt_string(self.soil_type),
                    opt_string(self.soil_moisture),
                ) == Some(m@),
            },
            required_name(opt_string(self.name)) is Some && first_care_refusal(
                opt_string(self.difficulty),
                opt_string(self.pet_safety),
                opt_string(self.growth_speed),
                opt_string(self.soil_type),
                opt_string(self.soil_moisture),
            ) is None ==> r is Ok,
    {
        let name = require_name(as_opt_str(&self.name))?;
        let icon = non_blank_or(self.icon, "\u{1fab4}");
        let watering_interval_days = match self.watering_interval_days {
            Some(d) => d,
            None => 7,
        };
        let light_needs = non_blank_or(self.light_needs, "indirect");
        let f = PlantFields {
            name,
            species: self.species,
            icon,
            location_id: self.location_id,
            watering_interval_days,
            light_needs,
            difficulty: self.difficulty,
            pet_safety: self.pet_safety,
            growth_speed: self.growth_speed,
            soil_type: self.soil_type,
            soil_moisture: self.soil_moisture,
            notes: self.notes,
        };
        check_fields(&f)?;
        Ok(f)
    }
}

/// A new value if given, else the current one.
fn keep_or<T>(new: Option<T>, current: T) -> (r: T)
    ensures
        r == match new {
            Some(v) => v,
            None => current,
        },
{
    match new {
        Some(v) => v,
        None => current,
    }
}

/// The updated value of a field: the request's when it carries one, else
/// the current one.
pub open spec fn updated<T>(new: Option<T>, current: T) -> T {
    match new {
        Some(v) => v,
        None => current,
    }
}

impl UpdatePlant {
    /// The values to store after applying this update to `current`; the
    /// resulting care-info values are checked.
    pub fn merge(self, current: PlantRow) -> (r: Result<PlantFields, ApiError>)
        ensures
            match r {
                Ok(f) => {
                    &&& fields_refusal(f) is None
                    &&& f.name == updated(self.name, current.name)
                    &&& f.species == updated(self.species, current.species)
                    &&& f.icon == updated(self.icon, current.icon)
                    &&& f.location_id == updated(self.location_id, current.location_id)
                    &&& f.watering_interval_days == updated(self.watering_interval_days, current.watering_interval_days)
                    &&& f.light_needs == updated(self.light_needs, current.light_needs)
                    &&& f.difficulty == updated(self.difficulty, current.difficulty)
                    &&& f.pet_safety == updated(self.pet_safety, current.pet_safety)
                    &&& f.growth_speed == updated(self.growth_speed, current.growth_speed)
                    &&& f.soil_type == updated(self.soil_type, current.soil_type)
                    &&& f.soil_moisture == updated(self.soil_moisture, current.soil_moisture)
                    &&& f.notes == updated(self.notes, current.notes)
                },
                Err(e) => e matches ApiError::Validation(m) && first_care_refusal(
                    opt_string(updated(self.difficulty, current.difficulty)),
                    opt_string(updated(self.pet_safety, current.pet_safety)),
                    opt_string(updated(self.growth_speed, current.growth_speed)),
                    opt_string(updated(self.soil_type, current.soil_type)),
                    opt_string(updated(self.soil_moisture, current.soil_moisture)),
                ) == Some(m@),
            },
            first_care_refusal(
                opt_string(updated(self.difficulty, current.difficulty)),
                opt_string(updated(self.pet_safety, current.pet_safety)),
                opt_string(updated(self.growth_speed, current.growth_speed)),
                opt_string(updated(self.soil_type, current.soil_type)),
                opt_string(updated(self.soil_moisture, current.soil_moisture)),
            ) is None ==> r is Ok,
    {
        let f = PlantFields {
            name: keep_or(self.name, current.name),
            species: keep_or(self.species, current.species),
            icon: keep_or(self.icon, current.icon),
            location_id: keep_or(self.location_id, current.location_id),
            watering_interval_days: keep_or(self.watering_interval_days, current.watering_interval_days),
            light_needs: keep_or(self.light_needs, current.light_needs),
            difficulty: keep_or(self.difficulty, current.difficulty),
            pet_safety: keep_or(self.pet_safety, current.pet_safety),
            growth_speed: keep_or(self.growth_speed, current.growth_speed),
            soil_type: keep_or(self.soil_type, current.soil_type),
            soil_moisture: keep_or(self.soil_moisture, current.soil_moisture),
            notes: keep_or(self.notes, current.notes),
        };
        check_fields(&f)?;
        Ok(f)
    }
}

} // verus!
