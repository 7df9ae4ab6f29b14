//! Checks on an uploaded plant photo.
use vstd::prelude::*;
use vstd::string::*;
use crate::error::ApiError;
use crate::text::str_eq;

verus! {

/// The largest photo accepted, in bytes: 5 MB.
pub const MAX_FILE_SIZE: usize = 5242880;

/// The file extension stored for an accepted image type.
pub open spec fn extension_for(content_type: Seq<char>) -> Option<Seq<char>> {
    if content_type == "image/jpeg"@ {
        Some("jpg"@)
    } else if content_type == "image/png"@ {
        Some("png"@)
    } else if content_type == "image/webp"@ {
        Some("webp"@)
    } else {
        None
    }
}

/// The file extension for an uploaded photo's content type; JPEG, PNG and
/// WebP are accepted.
pub fn photo_extension(content_type: &str) -> (r: Result<&'static str, ApiError>)
    ensures
        match extension_for(content_type@) {
            Some(e) => r matches Ok(x) && x@ == e,
            None => r matches Err(ApiError::Validation(m)) && m@ == "Invalid file type. Allowed: JPEG, PNG, WebP"@,
        },
{
    if str_eq(content_type, "image/jpeg") {
        Ok("jpg")
    } else if str_eq(content_type, "image/png") {
        Ok("png")
    } else if str_eq(content_type, "image/webp") {
        Ok("webp")
    } else {
        Err(ApiError::Validation(String::from_str("Invalid file type. Allowed: JPEG, PNG, WebP")))
    }
}

/// Refuses a photo larger than 5 MB.
pub fn check_photo_size(len: usize) -> (r: Result<(), ApiError>)
    ensures
        len <= MAX_FILE_SIZE ==> r is Ok,
        len > MAX_FILE_SIZE ==> (r matches Err(ApiError::Validation(m))
            && m@ == "File too large. Maximum size is 5 MB"@),
{
    if len > MAX_FILE_SIZE {
        Err(ApiError::Validation(String::from_str("File too large. Maximum size is 5 MB")))
    } else {
        Ok(())
    }
}

/// The stored file name of a photo: its generated stem and extension.
pub fn photo_file(stem: &str, extension: &str) -> (r: String)
    ensures
        r@ == stem@ + "."@ + extension@,
{
    let mut f = String::from_str(stem);
    f.append(".");
    f.append(extension);
    f
}

} // verus!
