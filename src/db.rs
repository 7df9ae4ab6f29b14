//! Decisions about the database location.
use vstd::prelude::*;
use vstd::string::*;
use crate::text::{chars_of, has_prefix, opt_string, starts_with, str_eq};

verus! {

/// The parent directory that `Path::parent` gives for a path, as text; none
/// for a root or an empty path. Path syntax is that of the build's target.
pub uninterp spec fn parent_of(path: Seq<char>) -> Option<Seq<char>>;

/// Relies on `std::path::Path::parent`: the parent of a path, depending on
/// the path alone. A parent of a `str` path is a prefix of it, so its text
/// converts without loss.
#[verifier::external_body]
fn path_parent(path: &str) -> (r: Option<String>)
    ensures
        opt_string(r) == parent_of(path@),
{
    match std::path::Path::new(path).parent() {
        Some(p) => Some(p.to_string_lossy().into_owned()),
        None => None,
    }
}

/// Whether the path has a parent directory that is not empty.
pub open spec fn has_parent_dir(path: Seq<char>) -> bool {
    parent_of(path) matches Some(p) && p.len() > 0
}

/// Whether the database path is a plain file path whose directory may have
/// to be created: not the in-memory database, not a `sqlite:` or `file:`
/// URL, and with a non-empty parent directory.
pub open spec fn creates_parent_dirs(path: Seq<char>) -> bool {
    path != ":memory:"@ && !has_prefix(path, "sqlite:"@) && !has_prefix(path, "file:"@) && has_parent_dir(path)
}

/// Whether the parent directories of the database file are to be created
/// before it is opened.
pub fn should_create_parent_dirs(db_path: &str) -> (r: bool)
    ensures
        r == creates_parent_dirs(db_path@),
{
    if str_eq(db_path, ":memory:") {
        return false;
    }
    let p = chars_of(db_path);
    let sqlite = chars_of("sqlite:");
    let file = chars_of("file:");
    if starts_with(p.as_slice(), sqlite.as_slice()) || starts_with(p.as_slice(), file.as_slice()) {
        return false;
    }
    match path_parent(db_path) {
        Some(p) => p.as_str().unicode_len() > 0,
        None => false,
    }
}

} // verus!
