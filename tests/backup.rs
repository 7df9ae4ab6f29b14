use std::io::Write;

use flowl::text::string_of;
use flowl::backup::Backup;
use flowl::error::ApiError;
use flowl::photos::{check_photo_size, photo_extension, photo_file, MAX_FILE_SIZE};
use flowl::service::{flag_after, LinkEvent};
use flowl::watering::{current_day, day_of_clock, NANOS_PER_DAY};
use zip::write::SimpleFileOptions;

fn archive(entries: &[(&str, &[u8])]) -> Vec<u8> {
    let mut zip = zip::ZipWriter::new(std::io::Cursor::new(Vec::new()));
    for (name, data) in entries {
        zip.start_file(*name, SimpleFileOptions::default()).unwrap();
        zip.write_all(data).unwrap();
    }
    zip.finish().unwrap().into_inner()
}

fn message(e: ApiError) -> String {
    match e {
        ApiError::BadRequest(m) => m,
        other => panic!("unexpected {other:?}"),
    }
}

#[test]
fn backup_with_photo() {
    let bytes = archive(&[
        ("data.json", b"{\"version\":\"0.1.0\"}"),
        ("photos/", b""),
        ("photos/test-photo.jpg", b"fake jpeg data"),
        ("notes.txt", b"hello"),
    ]);
    let (mut b, json) = Backup::open(bytes).ok().unwrap();
    assert_eq!(json, b"{\"version\":\"0.1.0\"}".to_vec());
    let photos = b.photos().ok().unwrap();
    assert_eq!(photos, vec![("test-photo.jpg".to_string(), b"fake jpeg data".to_vec())]);
}

#[test]
fn backup_not_a_zip() {
    let m = message(Backup::open(b"not a zip file".to_vec()).err().unwrap());
    assert!(m.starts_with("Invalid ZIP archive"));
}

#[test]
fn backup_missing_data_json() {
    let m = message(Backup::open(archive(&[("other.txt", b"hello")])).err().unwrap());
    assert_eq!(m, "Archive missing data.json");
}

#[test]
fn backup_path_traversal_rejected() {
    let bytes = archive(&[("data.json", b"{}"), ("../data.json", b"{}")]);
    let m = message(Backup::open(bytes).err().unwrap());
    assert_eq!(m, "Invalid filename in archive: ../data.json");
}

#[test]
fn photo_uploads() {
    assert_eq!(photo_extension("image/jpeg").ok(), Some("jpg"));
    assert_eq!(photo_extension("image/png").ok(), Some("png"));
    assert_eq!(photo_extension("image/webp").ok(), Some("webp"));
    match photo_extension("text/plain") {
        Err(ApiError::Validation(m)) => assert_eq!(m, "Invalid file type. Allowed: JPEG, PNG, WebP"),
        other => panic!("unexpected {other:?}"),
    }
    assert!(check_photo_size(MAX_FILE_SIZE).is_ok());
    match check_photo_size(MAX_FILE_SIZE + 1) {
        Err(ApiError::Validation(m)) => assert_eq!(m, "File too large. Maximum size is 5 MB"),
        other => panic!("unexpected {other:?}"),
    }
    assert_eq!(photo_file("abc", "png"), "abc.png");
}

#[test]
fn connection_flag() {
    assert!(flag_after(false, LinkEvent::ConnAck));
    assert!(!flag_after(true, LinkEvent::Error));
    assert!(flag_after(true, LinkEvent::Other));
    assert!(!flag_after(false, LinkEvent::Other));
}

#[test]
fn today_is_chrono_today() {
    use_today();
}

fn use_today() {
    let want = chrono::Datelike::num_days_from_ce(&chrono::Utc::now().date_naive());
    let got = current_day();
    assert!(got == want || got == want + 1);
}

#[test]
fn characters_to_string() {
    assert_eq!(string_of(&vec!['a', '\u{e9}', '/']), "a\u{e9}/");
    assert_eq!(string_of(&vec![]), "");
}

#[test]
fn clock_days() {
    let epoch = chrono::Datelike::num_days_from_ce(&chrono::NaiveDate::from_ymd_opt(1970, 1, 1).unwrap());
    assert_eq!(day_of_clock(Ok(0)), epoch);
    assert_eq!(day_of_clock(Ok(NANOS_PER_DAY - 1)), epoch);
    assert_eq!(day_of_clock(Ok(NANOS_PER_DAY)), epoch + 1);
    assert_eq!(day_of_clock(Err(0)), epoch);
    assert_eq!(day_of_clock(Err(1)), epoch - 1);
    assert_eq!(day_of_clock(Err(NANOS_PER_DAY)), epoch - 1);
    assert_eq!(day_of_clock(Err(NANOS_PER_DAY + 1)), epoch - 2);
    assert_eq!(day_of_clock(Ok(u128::MAX)), i32::MAX);
    assert_eq!(day_of_clock(Err(u128::MAX)), i32::MIN);
}

#[test]
fn json_escapes_in_payload() {
    let m = flowl::publish::discovery_message("p", 1, "a\u{1}\n\\\t\u{e9}");
    assert!(m.payload.contains("\"name\":\"a\\u0001\\n\\\\\\t\u{e9}\""));
}

#[test]
fn trimming_unicode_space() {
    let c = flowl::care::CreateLocation { name: Some("\u{3000}\u{a0} Hall\t\u{2028}".to_string()) };
    assert_eq!(c.checked_name().ok().as_deref(), Some("Hall"));
    let blank = flowl::care::CreateLocation { name: Some("\u{85}\u{2009}".to_string()) };
    assert!(blank.checked_name().is_err());
}
