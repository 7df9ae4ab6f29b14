//! Checks on the values that API requests carry: care-info fields, care
//! event types, required names, and the paging of the global care log.
use vstd::prelude::*;
use vstd::string::*;
use crate::error::ApiError;
use crate::text::{decimal, opt_chars, push_decimal, str_eq, trim, trimmed};

verus! {

/// Whether `v` is one of `allowed`.
pub open spec fn is_one_of(v: Seq<char>, allowed: Seq<&str>) -> bool {
    exists|i: int| 0 <= i < allowed.len() && #[trigger] allowed[i]@ == v
}

/// The message for a care-info value that is not allowed.
pub open spec fn care_info_message(field: Seq<char>, v: Seq<char>) -> Seq<char> {
    "Invalid value for "@ + field + ": \""@ + v + "\""@
}

/// Whether `v` is among `allowed`.
pub fn one_of(v: &str, allowed: &[&str]) -> (r: bool)
    ensures
        r == is_one_of(v@, allowed@),
{
    let mut i: usize = 0;
    while i < allowed.len()
        invariant
            i <= allowed@.len(),
            forall|k: int| 0 <= k < i ==> allowed@[k]@ != v@,
        decreases allowed.len() - i,
    {
        if str_eq(allowed[i], v) {
            return true;
        }
        i = i + 1;
    }
    false
}

/// Checks an optional care-info value against the values allowed for
/// `field`. An absent value is accepted.
pub fn validate_care_info(field: &str, value: Option<&str>, allowed: &[&str]) -> (r: Result<(), ApiError>)
    ensures
        match value {
            None => r is Ok,
            Some(v) => if is_one_of(v@, allowed@) {
                r is Ok
            } else {
                r matches Err(ApiError::Validation(m)) && m@ == care_info_message(field@, v@)
            },
        },
{
    match value {
        None => Ok(()),
        Some(v) => {
            if one_of(v, allowed) {
                Ok(())
            } else {
                let mut m = String::from_str("Invalid value for ");
                m.append(field);
                m.append(": \"");
                m.append(v);
                m.append("\"");
                assert(m@ =~= care_info_message(field@, v@));
                Err(ApiError::Validation(m))
            }
        },
    }
}

/// The allowed difficulty values.
pub open spec fn difficulty_values() -> Seq<Seq<char>> {
    seq!["easy"@, "moderate"@, "demanding"@]
}

/// The allowed pet-safety values.
pub open spec fn pet_safety_values() -> Seq<Seq<char>> {
    seq!["safe"@, "caution"@, "toxic"@]
}

/// The allowed growth-speed values.
pub open spec fn growth_speed_values() -> Seq<Seq<char>> {
    seq!["slow"@, "moderate"@, "fast"@]
}

/// The allowed soil types.
pub open spec fn soil_type_values() -> Seq<Seq<char>> {
    seq!["standard"@, "cactus-mix"@, "orchid-bark"@, "peat-moss"@]
}

/// The allowed soil-moisture values.
pub open spec fn soil_moisture_values() -> Seq<Seq<char>> {
    seq!["dry"@, "moderate"@, "moist"@]
}

/// Whether an optional value is absent or allowed.
pub open spec fn care_ok(value: Option<Seq<char>>, allowed: Seq<Seq<char>>) -> bool {
    match value {
        None => true,
        Some(v) => allowed.contains(v),
    }
}

/// The outcome of checking one care-info field: none when it passes, else
/// the message of its refusal.
pub open spec fn care_refusal(field: Seq<char>, value: Option<Seq<char>>, allowed: Seq<Seq<char>>) -> Option<Seq<char>> {
    match value {
        Some(v) => if allowed.contains(v) { None } else { Some(care_info_message(field, v)) },
        None => None,
    }
}

/// The message of the first care-info field that fails, in the order
/// difficulty, pet safety, growth speed, soil type, soil moisture.
pub open spec fn first_care_refusal(
    difficulty: Option<Seq<char>>,
    pet_safety: Option<Seq<char>>,
    growth_speed: Option<Seq<char>>,
    soil_type: Option<Seq<char>>,
    soil_moisture: Option<Seq<char>>,
) -> Option<Seq<char>> {
    if care_refusal("difficulty"@, difficulty, difficulty_values()) is Some {
        care_refusal("difficulty"@, difficulty, difficulty_values())
    } else if care_refusal("pet_safety"@, pet_safety, pet_safety_values()) is Some {
        care_refusal("pet_safety"@, pet_safety, pet_safety_values())
    } else if care_refusal("growth_speed"@, growth_speed, growth_speed_values()) is Some {
        care_refusal("growth_speed"@, growth_speed, growth_speed_values())
    } else if care_refusal("soil_type"@, soil_type, soil_type_values()) is Some {
        care_refusal("soil_type"@, soil_type, soil_type_values())
    } else {
        care_refusal("soil_moisture"@, soil_moisture, soil_moisture_values())
    }
}

/// Literals as character sequences.
pub open spec fn literals_view(v: Seq<&str>) -> Seq<Seq<char>> {
    v.map_values(|s: &str| s@)
}

proof fn lemma_one_of_list(v: Seq<char>, allowed: Seq<&str>)
    ensures
        is_one_of(v, allowed) == literals_view(allowed).contains(v),
{
    if is_one_of(v, allowed) {
        let i = choose|i: int| 0 <= i < allowed.len() && #[trigger] allowed[i]@ == v;
        assert(literals_view(allowed)[i] == v);
    }
    if literals_view(allowed).contains(v) {
        let i = choose|i: int| 0 <= i < literals_view(allowed).len() && literals_view(allowed)[i] == v;
        assert(allowed[i]@ == v);
    }
}

/// Checks one care-info field against a list of allowed values.
fn check_field(field: &str, value: Option<&str>, allowed: &[&str]) -> (r: Result<(), ApiError>)
    ensures
        match care_refusal(field@, opt_chars(value), literals_view(allowed@)) {
            None => r is Ok,
            Some(m) => r matches Err(ApiError::Validation(t)) && t@ == m,
        },
{
    proof {
        match value {
            Some(v) => lemma_one_of_list(v@, allowed@),
            None => {},
        }
    }
    validate_care_info(field, value, allowed)
}

/// Checks all five care-info fields; the first one that fails is reported.
pub fn validate_all_care_info(
    difficulty: Option<&str>,
    pet_safety: Option<&str>,
    growth_speed: Option<&str>,
    soil_type: Option<&str>,
    soil_moisture: Option<&str>,
) -> (r: Result<(), ApiError>)
    ensures
        match first_care_refusal(
            opt_chars(difficulty),
            opt_chars(pet_safety),
            opt_chars(growth_speed),
            opt_chars(soil_type),
            opt_chars(soil_moisture),
        ) {
            None => r is Ok,
            Some(m) => r matches Err(ApiError::Validation(t)) && t@ == m,
        },
{
    let d: [&str; 3] = ["easy", "moderate", "demanding"];
    let p: [&str; 3] = ["safe", "caution", "toxic"];
    let g: [&str; 3] = ["slow", "moderate", "fast"];
    let t: [&str; 4] = ["standard", "cactus-mix", "orchid-bark", "peat-moss"];
    let m: [&str; 3] = ["dry", "moderate", "moist"];
    assert(literals_view(d@) =~= difficulty_values());
    assert(literals_view(p@) =~= pet_safety_values());
    assert(literals_view(g@) =~= growth_speed_values());
    assert(literals_view(t@) =~= soil_type_values());
    assert(literals_view(m@) =~= soil_moisture_values());
    check_field("difficulty", difficulty, &d)?;
    check_field("pet_safety", pet_safety, &p)?;
    check_field("growth_speed", growth_speed, &g)?;
    check_field("soil_type", soil_type, &t)?;
    check_field("soil_moisture", soil_moisture, &m)?;
    Ok(())
}

/// The care event types.
pub open spec fn event_types() -> Seq<Seq<char>> {
    seq!["watered"@, "fertilized"@, "repotted"@, "pruned"@, "custom"@]
}

/// The message for an unknown care event type.
pub open spec fn event_type_message(t: Seq<char>) -> Seq<char> {
    "Invalid event_type '"@ + t + "'. Must be one of: watered, fertilized, repotted, pruned, custom"@
}

/// Checks that `event_type` is one of the care event types.
pub fn validate_event_type(event_type: &str) -> (r: Result<(), ApiError>)
    ensures
        event_types().contains(event_type@) ==> r is Ok,
        !event_types().contains(event_type@) ==> (r matches Err(ApiError::Validation(m))
            && m@ == event_type_message(event_type@)),
{
    let types: [&str; 5] = ["watered", "fertilized", "repotted", "pruned", "custom"];
    assert(literals_view(types@) =~= event_types());
    proof {
        lemma_one_of_list(event_type@, types@);
    }
    if one_of(event_type, &types) {
        Ok(())
    } else {
        let mut m = String::from_str("Invalid event_type '");
        m.append(event_type);
        m.append("'. Must be one of: watered, fertilized, repotted, pruned, custom");
        assert(m@ =~= event_type_message(event_type@));
        Err(ApiError::Validation(m))
    }
}

/// A required name: present and not blank once trimmed; the trimmed text.
pub open spec fn required_name(name: Option<Seq<char>>) -> Option<Seq<char>> {
    match name {
        Some(n) => if trimmed(n).len() > 0 { Some(trimmed(n)) } else { None },
        None => None,
    }
}

/// The trimmed name, or a validation error `Name is required` when it is
/// absent or blank.
pub fn require_name(name: Option<&str>) -> (r: Result<String, ApiError>)
    ensures
        match required_name(opt_chars(name)) {
            Some(n) => r matches Ok(t) && t@ == n,
            None => r matches Err(ApiError::Validation(m)) && m@ == "Name is required"@,
        },
{
    match name {
        Some(n) => {
            let t = trim(n);
            if t.unicode_len() > 0 {
                Ok(String::from_str(t))
            } else {
                Err(ApiError::Validation(String::from_str("Name is required")))
            }
        },
        None => Err(ApiError::Validation(String::from_str("Name is required"))),
    }
}

/// The event type of a new care event: required, not blank, and one of the
/// care event types. It is kept as given, untrimmed.
pub fn require_event_type(event_type: Option<&str>) -> (r: Result<String, ApiError>)
    ensures
        match event_type {
            None => r matches Err(ApiError::Validation(m)) && m@ == "event_type is required"@,
            Some(t) => if trimmed(t@).len() == 0 {
                r matches Err(ApiError::Validation(m)) && m@ == "event_type is required"@
            } else if event_types().contains(t@) {
                r matches Ok(s) && s@ == t@
            } else {
                r matches Err(ApiError::Validation(m)) && m@ == event_type_message(t@)
            },
        },
{
    match event_type {
        None => Err(ApiError::Validation(String::from_str("event_type is required"))),
        Some(t) => {
            if trim(t).unicode_len() == 0 {
                return Err(ApiError::Validation(String::from_str("event_type is required")));
            }
            match validate_event_type(t) {
                Ok(()) => Ok(String::from_str(t)),
                Err(e) => Err(e),
            }
        },
    }
}

/// The page size of the global care log: the requested limit, 20 when
/// absent, held between 1 and 100.
pub open spec fn page_size(limit: Option<i64>) -> int {
    let l = match limit {
        Some(v) => v as int,
        None => 20,
    };
    if l < 1 { 1 } else if l > 100 { 100 } else { l }
}

/// The page size of the global care log.
pub fn page_limit(limit: Option<i64>) -> (r: i64)
    ensures
        r == page_size(limit),
{
    let l: i64 = match limit {
        Some(v) => v,
        None => 20,
    };
    if l < 1 {
        1
    } else if l > 100 {
        100
    } else {
        l
    }
}

/// The query of the global care log, newest first, with the join that
/// brings each event's plant name.
pub open spec fn care_select() -> Seq<char> {
    "SELECT ce.id, ce.plant_id, p.name AS plant_name, ce.event_type, ce.notes, ce.occurred_at, ce.created_at FROM care_events ce JOIN plants p ON ce.plant_id = p.id"@
}

/// The filter part of the global care log query.
pub open spec fn care_filter(before: Option<i64>, event_type: Option<Seq<char>>) -> Seq<char> {
    match (before, event_type) {
        (None, None) => Seq::empty(),
        (Some(b), None) => " WHERE ce.id < "@ + decimal(b as int),
        (None, Some(t)) => " WHERE ce.event_type = '"@ + t + "'"@,
        (Some(b), Some(t)) => " WHERE ce.id < "@ + decimal(b as int) + " AND ce.event_type = '"@ + t + "'"@,
    }
}

/// The global care log query: one row more than the page size, so that
/// the caller can tell whether more follow.
pub open spec fn care_page_query(limit: Option<i64>, before: Option<i64>, event_type: Option<Seq<char>>) -> Seq<char> {
    care_select() + care_filter(before, event_type) + " ORDER BY ce.occurred_at DESC, ce.id DESC LIMIT "@
        + decimal(page_size(limit) + 1)
}

/// The query of one page of the global care log. An event-type filter that
/// is not a care event type is refused before it reaches the query.
pub fn care_page_sql(limit: Option<i64>, before: Option<i64>, event_type: Option<&str>) -> (r: Result<String, ApiError>)
    ensures
        match event_type {
            Some(t) if !event_types().contains(t@) => r matches Err(ApiError::Validation(m)) && m@ == event_type_message(t@),
            _ => r matches Ok(q) && q@ == care_page_query(limit, before, opt_chars(event_type)),
        },
{
    if let Some(t) = event_type {
        validate_event_type(t)?;
    }
    let size = page_limit(limit);
    let mut q = String::from_str("SELECT ce.id, ce.plant_id, p.name AS plant_name, ce.event_type, ce.notes, ce.occurred_at, ce.created_at FROM care_events ce JOIN plants p ON ce.plant_id = p.id");
    match before {
        Some(b) => {
            q.append(" WHERE ce.id < ");
            push_decimal(&mut q, b);
            if let Some(t) = event_type {
                q.append(" AND ce.event_type = '");
                q.append(t);
                q.append("'");
            }
        },
        None => {
            if let Some(t) = event_type {
                q.append(" WHERE ce.event_type = '");
                q.append(t);
                q.append("'");
            }
        },
    }
    q.append(" ORDER BY ce.occurred_at DESC, ce.id DESC LIMIT ");
    push_decimal(&mut q, size + 1);
    assert(q@ =~= care_page_query(limit, before, opt_chars(event_type)));
    Ok(q)
}

/// Cuts the rows fetched for one page down to the page size: `has_more`
/// when one row more than the page size came back, which is then dropped.
pub fn finish_page<T>(rows: Vec<T>, limit: i64) -> (r: (Vec<T>, bool))
    requires
        1 <= limit,
    ensures
        r.1 == (rows@.len() > limit),
        r.0@ == if r.1 { rows@.drop_last() } else { rows@ },
{
    let mut rows = rows;
    let has_more = rows.len() as u64 > limit as u64;
    if has_more {
        rows.pop();
    }
    (rows, has_more)
}

} // verus!
