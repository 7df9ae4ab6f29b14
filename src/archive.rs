//! Checks on a backup archive before it is restored: the format version,
//! the entry names, and which entries are photos.
use vstd::prelude::*;
use vstd::string::*;
use crate::error::ApiError;
use crate::text::{
    chars_of, contains_chars, contains_seq, has_prefix, same_chars, starts_with, string_of, sub_chars,
};

verus! {

/// The fields of `s` between `.` separators, as `str::split('.')` gives
/// them: always at least one.
pub open spec fn dot_fields(s: Seq<char>) -> Seq<Seq<char>>
    decreases s.len(),
{
    if s.len() == 0 {
        seq![Seq::empty()]
    } else if s.last() == '.' {
        dot_fields(s.drop_last()).push(Seq::empty())
    } else {
        let p = dot_fields(s.drop_last());
        p.update(p.len() - 1, p.last().push(s.last()))
    }
}

proof fn lemma_dot_fields_nonempty(s: Seq<char>)
    ensures
        dot_fields(s).len() >= 1,
    decreases s.len(),
{
    if s.len() > 0 {
        lemma_dot_fields_nonempty(s.drop_last());
    }
}

/// The fields of `s` between `.` separators.
pub fn split_dots(s: &str) -> (r: Vec<Vec<char>>)
    ensures
        r@.len() == dot_fields(s@).len(),
        forall|i: int| 0 <= i < r@.len() ==> #[trigger] r@[i]@ == dot_fields(s@)[i],
{
    let cs = chars_of(s);
    let mut fields: Vec<Vec<char>> = Vec::new();
    fields.push(Vec::new());
    let mut i: usize = 0;
    while i < cs.len()
        invariant
            i <= cs@.len(),
            cs@ == s@,
            fields@.len() == dot_fields(cs@.subrange(0, i as int)).len(),
            fields@.len() >= 1,
            forall|k: int| 0 <= k < fields@.len() ==> #[trigger] fields@[k]@ == dot_fields(cs@.subrange(0, i as int))[k],
        decreases cs.len() - i,
    {
        let c = cs[i];
        let ghost pre = cs@.subrange(0, i as int);
        let ghost now = cs@.subrange(0, i + 1);
        assert(now.drop_last() =~= pre);
        assert(now.last() == c);
        if c == '.' {
            fields.push(Vec::new());
            proof {
                assert forall|k: int| 0 <= k < fields@.len() implies #[trigger] fields@[k]@ == dot_fields(now)[k] by {
                    if k == fields@.len() - 1 {
                        assert(fields@[k]@ =~= Seq::<char>::empty());
                    }
                }
            }
        } else {
            let last = fields.len() - 1;
            let mut f = fields.pop().unwrap();
            let ghost old_f = f@;
            f.push(c);
            fields.push(f);
            proof {
                assert(old_f == dot_fields(pre)[last as int]);
                assert forall|k: int| 0 <= k < fields@.len() implies #[trigger] fields@[k]@ == dot_fields(now)[k] by {
                    if k == last as int {
                        assert(fields@[k]@ =~= old_f.push(c));
                    }
                }
            }
        }
        i = i + 1;
    }
    assert(cs@.subrange(0, cs@.len() as int) =~= s@);
    fields
}

/// The message for a version without the major and minor fields.
pub open spec fn format_message(server: Seq<char>, archive: Seq<char>) -> Seq<char> {
    "Invalid version format: expected '"@ + server + "', got '"@ + archive + "'"@
}

/// The message for a version from another major or minor release.
pub open spec fn mismatch_message(server: Seq<char>, archive: Seq<char>) -> Seq<char> {
    "Version mismatch: server is "@ + server + ", archive is "@ + archive
}

/// Whether two versions share the major and minor fields; both must have
/// them.
pub open spec fn same_release(server: Seq<char>, archive: Seq<char>) -> bool {
    dot_fields(server)[0] == dot_fields(archive)[0] && dot_fields(server)[1] == dot_fields(archive)[1]
}

/// Checks that an archive written by version `archive_version` can be
/// restored by version `server_version`: same major and minor fields, any
/// patch field.
pub fn check_version(archive_version: &str, server_version: &str) -> (r: Result<(), ApiError>)
    ensures
        dot_fields(server_version@).len() < 2 || dot_fields(archive_version@).len() < 2 ==> (r matches Err(
            ApiError::BadRequest(m),
        ) && m@ == format_message(server_version@, archive_version@)),
        dot_fields(server_version@).len() >= 2 && dot_fields(archive_version@).len() >= 2 ==> if same_release(
            server_version@,
            archive_version@,
        ) {
            r is Ok
        } else {
            r matches Err(ApiError::BadRequest(m)) && m@ == mismatch_message(server_version@, archive_version@)
        },
{
    let server = split_dots(server_version);
    let archive = split_dots(archive_version);
    if server.len() < 2 || archive.len() < 2 {
        let mut m = String::from_str("Invalid version format: expected '");
        m.append(server_version);
        m.append("', got '");
        m.append(archive_version);
        m.append("'");
        assert(m@ =~= format_message(server_version@, archive_version@));
        return Err(ApiError::BadRequest(m));
    }
    assert(server@[0]@ == dot_fields(server_version@)[0]);
    assert(server@[1]@ == dot_fields(server_version@)[1]);
    assert(archive@[0]@ == dot_fields(archive_version@)[0]);
    assert(archive@[1]@ == dot_fields(archive_version@)[1]);
    if !same_chars(server[0].as_slice(), archive[0].as_slice()) || !same_chars(server[1].as_slice(), archive[1].as_slice()) {
        let mut m = String::from_str("Version mismatch: server is ");
        m.append(server_version);
        m.append(", archive is ");
        m.append(archive_version);
        assert(m@ =~= mismatch_message(server_version@, archive_version@));
        return Err(ApiError::BadRequest(m));
    }
    Ok(())
}

/// Whether an archive entry name could escape the restore directory: it
/// holds `..` or starts at a root.
pub open spec fn unsafe_entry_name(name: Seq<char>) -> bool {
    contains_seq(name, ".."@) || has_prefix(name, "/"@) || has_prefix(name, "\\"@)
}

/// Refuses an archive entry name that could escape the restore directory.
pub fn validate_filename(name: &str) -> (r: Result<(), ApiError>)
    ensures
        !unsafe_entry_name(name@) ==> r is Ok,
        unsafe_entry_name(name@) ==> (r matches Err(ApiError::BadRequest(m))
            && m@ == "Invalid filename in archive: "@ + name@),
{
    let n = chars_of(name);
    let dots = chars_of("..");
    let slash = chars_of("/");
    let backslash = chars_of("\\");
    if contains_chars(n.as_slice(), dots.as_slice()) || starts_with(n.as_slice(), slash.as_slice())
        || starts_with(n.as_slice(), backslash.as_slice()) {
        let mut m = String::from_str("Invalid filename in archive: ");
        m.append(name);
        return Err(ApiError::BadRequest(m));
    }
    Ok(())
}

/// The photo file name of an archive entry: what follows `photos/`, when
/// that is not empty.
pub open spec fn photo_entry(name: Seq<char>) -> Option<Seq<char>> {
    if has_prefix(name, "photos/"@) && name.len() > 7 {
        Some(name.subrange(7, name.len() as int))
    } else {
        None
    }
}

/// The photo file name of an archive entry, if the entry is a photo.
pub fn photo_file_name(name: &str) -> (r: Option<String>)
    ensures
        match photo_entry(name@) {
            Some(f) => r matches Some(t) && t@ == f,
            None => r is None,
        },
{
    let n = chars_of(name);
    let pre = chars_of("photos/");
    proof {
        reveal_strlit("photos/");
    }
    if starts_with(n.as_slice(), pre.as_slice()) && n.len() > 7 {
        let rest = sub_chars(n.as_slice(), 7, n.len());
        Some(string_of(&rest))
    } else {
        None
    }
}

} // verus!
