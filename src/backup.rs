//! Reading an uploaded backup archive. The ZIP format itself is zip's; this
//! module decides which entries are read, and refuses unsafe ones.
use vstd::prelude::*;
use vstd::string::*;
use crate::archive::{photo_entry, photo_file_name, unsafe_entry_name, validate_filename};
use crate::error::ApiError;

verus! {

#[verifier::external_type_specification]
#[verifier::external_body]
#[verifier::reject_recursive_types(T)]
pub struct ExCursor<T>(std::io::Cursor<T>);

#[verifier::external_type_specification]
#[verifier::external_body]
#[verifier::reject_recursive_types(R)]
pub struct ExZipArchive<R>(zip::ZipArchive<R>);

/// The entry names of an archive, in the archive's order.
pub uninterp spec fn zip_names(a: zip::ZipArchive<std::io::Cursor<Vec<u8>>>) -> Seq<Seq<char>>;

/// What reading each entry of an archive gives: its bytes, or none when
/// the entry cannot be opened or read.
pub uninterp spec fn zip_data(a: zip::ZipArchive<std::io::Cursor<Vec<u8>>>) -> Seq<Option<Seq<u8>>>;

/// Relies on `zip::ZipArchive::new` over an in-memory cursor: reads the
/// central directory, or says why the bytes are not an archive.
#[verifier::external_body]
fn zip_open(bytes: Vec<u8>) -> (r: Result<zip::ZipArchive<std::io::Cursor<Vec<u8>>>, String>) {
    match zip::ZipArchive::new(std::io::Cursor::new(bytes)) {
        Ok(a) => Ok(a),
        Err(e) => Err(e.to_string()),
    }
}

/// Relies on `zip::ZipArchive::len`: the number of entries.
#[verifier::external_body]
fn zip_len(a: &zip::ZipArchive<std::io::Cursor<Vec<u8>>>) -> (r: usize)
    ensures
        r == zip_names(*a).len(),
        r == zip_data(*a).len(),
{
    a.len()
}

/// Relies on `zip::ZipArchive::index_for_name`: the position of the entry
/// with the given name, if there is one.
#[verifier::external_body]
fn zip_find(a: &zip::ZipArchive<std::io::Cursor<Vec<u8>>>, name: &str) -> (r: Option<usize>)
    ensures
        match r {
            Some(i) => i < zip_names(*a).len() && zip_names(*a)[i as int] == name@,
            None => !zip_names(*a).contains(name@),
        },
{
    a.index_for_name(name)
}

/// Relies on `zip::ZipArchive::by_index` and `ZipFile::name`: the name of
/// entry `i`. Opening an entry moves no entry; an entry that does not open
/// cannot be read either.
#[verifier::external_body]
fn zip_entry_name(a: &mut zip::ZipArchive<std::io::Cursor<Vec<u8>>>, i: usize) -> (r: Result<String, String>)
    requires
        i < zip_names(*old(a)).len(),
    ensures
        zip_names(*final(a)) == zip_names(*old(a)),
        zip_data(*final(a)) == zip_data(*old(a)),
        match r {
            Ok(n) => n@ == zip_names(*old(a))[i as int],
            Err(_) => zip_data(*old(a))[i as int] is None,
        },
{
    match a.by_index(i) {
        Ok(f) => Ok(f.name().to_string()),
        Err(e) => Err(e.to_string()),
    }
}

/// Relies on `zip::ZipArchive::by_index` and the `Read` of `ZipFile`: the
/// bytes of entry `i`, decompressed.
#[verifier::external_body]
fn zip_entry_read(a: &mut zip::ZipArchive<std::io::Cursor<Vec<u8>>>, i: usize) -> (r: Result<Vec<u8>, String>)
    requires
        i < zip_names(*old(a)).len(),
    ensures
        zip_names(*final(a)) == zip_names(*old(a)),
        zip_data(*final(a)) == zip_data(*old(a)),
        match r {
            Ok(d) => zip_data(*old(a))[i as int] == Some(d@),
            Err(_) => zip_data(*old(a))[i as int] is None,
        },
{
    match a.by_index(i) {
        Ok(mut f) => {
            let mut d = Vec::new();
            match std::io::Read::read_to_end(&mut f, &mut d) {
                Ok(_) => Ok(d),
                Err(e) => Err(e.to_string()),
            }
        },
        Err(e) => Err(e.to_string()),
    }
}

/// An uploaded archive whose entry names were all found safe, and which
/// holds a `data.json`.
pub struct Backup {
    archive: zip::ZipArchive<std::io::Cursor<Vec<u8>>>,
}

impl Backup {
    /// The entry names.
    pub closed spec fn names(&self) -> Seq<Seq<char>> {
        zip_names(self.archive)
    }

    /// What reading each entry gives.
    pub closed spec fn data(&self) -> Seq<Option<Seq<u8>>> {
        zip_data(self.archive)
    }

    /// Opens an uploaded archive, refuses it if any entry name could escape
    /// the restore directory, and reads its `data.json`.
    pub fn open(bytes: Vec<u8>) -> (r: Result<(Backup, Vec<u8>), ApiError>)
        ensures
            match r {
                Ok((b, json)) => {
                    &&& forall|i: int| 0 <= i < b.names().len() ==> !unsafe_entry_name(#[trigger] b.names()[i])
                    &&& exists|i: int| 0 <= i < b.names().len() && b.names()[i] == "data.json"@
                        && b.data()[i] == Some(json@)
                },
                Err(e) => e is BadRequest,
            },
    {
        let mut archive = match zip_open(bytes) {
            Ok(a) => a,
            Err(e) => {
                let mut m = String::from_str("Invalid ZIP archive: ");
                m.append(e.as_str());
                return Err(ApiError::BadRequest(m));
            },
        };
        let n = zip_len(&archive);
        let ghost names = zip_names(archive);
        let ghost data = zip_data(archive);
        let mut i: usize = 0;
        while i < n
            invariant
                i <= n,
                n == names.len(),
                zip_names(archive) == names,
                zip_data(archive) == data,
                forall|k: int| 0 <= k < i ==> !unsafe_entry_name(#[trigger] names[k]),
            decreases n - i,
        {
            let name = match zip_entry_name(&mut archive, i) {
                Ok(t) => t,
                Err(e) => {
                    let mut m = String::from_str("Invalid archive entry: ");
                    m.append(e.as_str());
                    return Err(ApiError::BadRequest(m));
                },
            };
            validate_filename(name.as_str())?;
            i = i + 1;
        }
        let k = match zip_find(&archive, "data.json") {
            Some(k) => k,
            None => return Err(ApiError::BadRequest(String::from_str("Archive missing data.json"))),
        };
        let json = match zip_entry_read(&mut archive, k) {
            Ok(d) => d,
            Err(e) => {
                let mut m = String::from_str("Failed to read data.json: ");
                m.append(e.as_str());
                return Err(ApiError::BadRequest(m));
            },
        };
        let b = Backup { archive };
        assert(b.names()[k as int] == "data.json"@ && b.data()[k as int] == Some(json@));
        Ok((b, json))
    }

    /// The photos of the archive: each entry under `photos/` with a
    /// non-empty file name, as that file name and the entry's bytes.
    pub fn photos(&mut self) -> (r: Result<Vec<(String, Vec<u8>)>, ApiError>)
        ensures
            final(self).names() == old(self).names(),
            final(self).data() == old(self).data(),
            match r {
                Ok(ps) => photos_view(ps@) == photos_of(old(self).names(), old(self).data(), old(self).names().len() as int),
                Err(e) => e is BadRequest,
            },
            (forall|i: int| 0 <= i < old(self).data().len() ==> #[trigger] old(self).data()[i] is Some) ==> r is Ok,
    {
        let n = zip_len(&self.archive);
        let ghost names = self.names();
        let ghost data = self.data();
        let mut out: Vec<(String, Vec<u8>)> = Vec::new();
        let mut i: usize = 0;
        while i < n
            invariant
                i <= n,
                n == names.len(),
                n == data.len(),
                self.names() == names,
                self.data() == data,
                photos_view(out@) == photos_of(names, data, i as int),
                names == old(self).names(),
                data == old(self).data(),
            decreases n - i,
        {
            let name = match zip_entry_name(&mut self.archive, i) {
                Ok(t) => t,
                Err(e) => {
                    let mut m = String::from_str("Invalid archive entry: ");
                    m.append(e.as_str());
                    return Err(ApiError::BadRequest(m));
                },
            };
            match photo_file_name(name.as_str()) {
                Some(file) => {
                    let contents = match zip_entry_read(&mut self.archive, i) {
                        Ok(d) => d,
                        Err(e) => {
                            let mut m = String::from_str("Failed to read ");
                            m.append(name.as_str());
                            m.append(": ");
                            m.append(e.as_str());
                            return Err(ApiError::BadRequest(m));
                        },
                    };
                    let ghost before = out@;
                    out.push((file, contents));
                    assert(photos_view(out@) =~= photos_view(before).push((photo_entry(names[i as int])->0, data[i as int]->0)));
                },
                None => {},
            }
            i = i + 1;
        }
        Ok(out)
    }
}

/// Photos as plain values.
pub open spec fn photos_view(ps: Seq<(String, Vec<u8>)>) -> Seq<(Seq<char>, Seq<u8>)> {
    ps.map_values(|p: (String, Vec<u8>)| (p.0@, p.1@))
}

/// The photos among the first `n` entries, for entries that read.
pub open spec fn photos_of(names: Seq<Seq<char>>, data: Seq<Option<Seq<u8>>>, n: int) -> Seq<(Seq<char>, Seq<u8>)>
    decreases n,
{
    if n <= 0 {
        Seq::empty()
    } else {
        let before = photos_of(names, data, n - 1);
        match (photo_entry(names[n - 1]), data[n - 1]) {
            (Some(f), Some(d)) => before.push((f, d)),
            _ => before,
        }
    }
}

} // verus!
