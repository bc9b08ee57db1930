//! The trusted boundary to the outside compute crates: ZIP decoding,
//! JSON field lookup and base64 encoding.
//!
//! Each wrapper holds one outside operation, and its contract names the
//! operation's result — a function of the wrapper's arguments alone — so
//! the extraction logic of the crate can be verified against it.

use vstd::prelude::*;

verus! {

use crate::request_handlers::BundleError;
use crate::request_handlers::ManifestView;
use crate::request_handlers::WexbdcManifest;

/// One archive entry: its name and its fully read contents.
pub struct ZipEntry {
    pub name: String,
    pub data: Vec<u8>,
}

impl View for ZipEntry {
    type V = (Seq<char>, Seq<u8>);

    open spec fn view(&self) -> (Seq<char>, Seq<u8>) {
        (self.name@, self.data@)
    }
}

/// The entries of a sequence, as name/contents pairs.
pub open spec fn entries_view(es: Seq<ZipEntry>) -> Seq<(Seq<char>, Seq<u8>)> {
    es.map_values(|e: ZipEntry| e@)
}

/// The entries of `b` decoded as a ZIP archive, named and decompressed,
/// in archive order; nothing when `b` is not a well-formed archive.
pub uninterp spec fn zip_entries_of(b: Seq<u8>) -> Option<Seq<(Seq<char>, Seq<u8>)>>;

/// Relies on async_zip's in-memory `ZipFileReader`: decoding a byte
/// vector is a function of the bytes alone; a malformed archive, an entry
/// with a non-UTF-8 name and a checksum mismatch are all answered with an
/// error, here `None`.
#[verifier::external_body]
#[allow(deprecated)]
pub(crate) fn read_zip_entries(b: &Vec<u8>) -> (r: Option<Vec<ZipEntry>>)
    ensures
        r is Some <==> zip_entries_of(b@) is Some,
        r matches Some(es) ==> Some(entries_view(es@)) == zip_entries_of(b@),
{
    let rt = tokio::runtime::Builder::new_current_thread().build().expect("runtime");
    let reader = rt.block_on(async_zip::base::read::mem::ZipFileReader::new(b.clone())).ok()?;
    let n = reader.file().entries().len();
    let mut out = Vec::new();
    for i in 0..n {
        let mut er = rt.block_on(reader.reader_with_entry(i)).ok()?;
        let name = String::from_utf8(er.entry().filename().as_bytes().to_vec()).ok()?;
        let mut data = Vec::new();
        rt.block_on(er.read_to_end_checked(&mut data)).ok()?;
        out.push(ZipEntry { name, data });
    }
    Some(out)
}

/// The string value at JSON pointer `path` in the document bytes `b`;
/// nothing when `b` is not JSON, the path is absent, or the value there is
/// not a string.
pub uninterp spec fn json_str_at(b: Seq<u8>, path: Seq<char>) -> Option<Seq<char>>;

/// Relies on serde_json's `from_slice`, `Value::pointer` and
/// `Value::as_str`: the looked-up string is a function of the document
/// bytes and the path alone.
#[verifier::external_body]
pub(crate) fn json_str_field(b: &Vec<u8>, path: &str) -> (r: Option<String>)
    ensures
        match r {
            Some(s) => json_str_at(b@, path@) == Some(s@),
            None => json_str_at(b@, path@) is None,
        },
{
    let v: serde_json::Value = serde_json::from_slice(b).ok()?;
    match v.pointer(path) {
        Some(x) => x.as_str().map(|s| s.to_string()),
        None => None,
    }
}

/// The integer value at JSON pointer `path` in the document bytes `b`;
/// nothing when `b` is not JSON, the path is absent, or the value there is
/// not an integer that fits `i64`.
pub uninterp spec fn json_int_at(b: Seq<u8>, path: Seq<char>) -> Option<i64>;

/// Relies on serde_json's `from_slice`, `Value::pointer` and
/// `Value::as_i64`: the looked-up integer is a function of the document
/// bytes and the path alone.
#[verifier::external_body]
pub(crate) fn json_int_field(b: &Vec<u8>, path: &str) -> (r: Option<i64>)
    ensures
        r == json_int_at(b@, path@),
{
    let v: serde_json::Value = serde_json::from_slice(b).ok()?;
    v.pointer(path)?.as_i64()
}

/// The string value at JSON pointer `path` in the document text `s`;
/// nothing when `s` is not JSON, the path is absent, or the value there is
/// not a string.
pub uninterp spec fn json_text_str_at(s: Seq<char>, path: Seq<char>) -> Option<Seq<char>>;

/// Relies on serde_json's `from_str`, `Value::pointer` and
/// `Value::as_str`: the looked-up string is a function of the document
/// text and the path alone.
#[verifier::external_body]
pub(crate) fn json_text_str_field(s: &str, path: &str) -> (r: Option<String>)
    ensures
        match r {
            Some(v) => json_text_str_at(s@, path@) == Some(v@),
            None => json_text_str_at(s@, path@) is None,
        },
{
    let v: serde_json::Value = serde_json::from_str(s).ok()?;
    match v.pointer(path) {
        Some(x) => x.as_str().map(|s| s.to_string()),
        None => None,
    }
}

/// The integer value at JSON pointer `path` in the document text `s`;
/// nothing when `s` is not JSON, the path is absent, or the value there is
/// not an integer that fits `i64`.
pub uninterp spec fn json_text_int_at(s: Seq<char>, path: Seq<char>) -> Option<i64>;

/// Relies on serde_json's `from_str`, `Value::pointer` and
/// `Value::as_i64`: the looked-up integer is a function of the document
/// text and the path alone.
#[verifier::external_body]
pub(crate) fn json_text_int_field(s: &str, path: &str) -> (r: Option<i64>)
    ensures
        r == json_text_int_at(s@, path@),
{
    let v: serde_json::Value = serde_json::from_str(s).ok()?;
    v.pointer(path)?.as_i64()
}

/// The standard base64 text of the bytes `b`.
pub uninterp spec fn b64_of(b: Seq<u8>) -> Seq<char>;

/// Relies on base64's `encode`: the standard-alphabet, padded base64 text
/// of the bytes, a function of the bytes alone.
#[verifier::external_body]
pub(crate) fn b64_encode(b: &Vec<u8>) -> (r: String)
    ensures
        r@ == b64_of(b@),
{
    base64::encode(b)
}

/// Whether two string slices hold the same characters.
pub fn str_eq(a: &str, b: &str) -> (r: bool)
    ensures
        r == (a@ == b@),
{
    let s1 = a.to_owned();
    let s2 = b.to_owned();
    s1 == s2
}

/// The contents of the first entry named `name`.
pub open spec fn entry_data(es: Seq<(Seq<char>, Seq<u8>)>, name: Seq<char>) -> Option<Seq<u8>>
    decreases es.len(),
{
    if es.len() == 0 {
        None
    } else if es[0].0 == name {
        Some(es[0].1)
    } else {
        entry_data(es.drop_first(), name)
    }
}

/// The manifest parsed out of the manifest entry bytes `b`: nothing when
/// a required field is missing or wrongly typed, or the version does not
/// fit a 32-bit integer.
pub open spec fn manifest_of(b: Seq<u8>) -> Option<ManifestView> {
    let app_id = json_str_at(b, "/app_id"@);
    let version = json_int_at(b, "/version"@);
    let name = json_str_at(b, "/name"@);
    let description = json_str_at(b, "/description"@);
    if app_id is Some && version is Some && name is Some && description is Some && -2147483648
        <= version.unwrap() <= 2147483647 {
        Some(
            ManifestView {
                app_id: app_id.unwrap(),
                version: version.unwrap() as i32,
                name: name.unwrap(),
                description: description.unwrap(),
                source_code_url: json_str_at(b, "/source_code_url"@),
                submitter_uri: json_str_at(b, "/submitter_uri"@),
            },
        )
    } else {
        None
    }
}

/// Parses the manifest entry bytes into the manifest fields; every
/// required field must be present with its declared type.
pub fn get_webxdc_manifest(b: &Vec<u8>) -> (r: Result<WexbdcManifest, BundleError>)
    ensures
        r is Ok <==> manifest_of(b@) is Some,
        r matches Ok(m) ==> Some(m@) == manifest_of(b@),
        r matches Err(e) ==> e == BundleError::BadBundle,
{
    let app_id = match json_str_field(b, "/app_id") {
        Some(s) => s,
        None => {
            return Err(BundleError::BadBundle);
        },
    };
    let version64 = match json_int_field(b, "/version") {
        Some(v) => v,
        None => {
            return Err(BundleError::BadBundle);
        },
    };
    if version64 < -2147483648 || version64 > 2147483647 {
        return Err(BundleError::BadBundle);
    }
    let version = version64 as i32;
    let name = match json_str_field(b, "/name") {
        Some(s) => s,
        None => {
            return Err(BundleError::BadBundle);
        },
    };
    let description = match json_str_field(b, "/description") {
        Some(s) => s,
        None => {
            return Err(BundleError::BadBundle);
        },
    };
    let source_code_url = json_str_field(b, "/source_code_url");
    let submitter_uri = json_str_field(b, "/submitter_uri");
    Ok(WexbdcManifest { app_id, version, name, description, source_code_url, submitter_uri })
}

/// Index of the first entry named `name`.
pub fn find_entry(entries: &Vec<ZipEntry>, name: &str) -> (r: Option<usize>)
    ensures
        match r {
            Some(i) => i < entries@.len() && entries@[i as int].name@ == name@ && entry_data(
                entries_view(entries@),
                name@,
            ) == Some(entries@[i as int].data@),
            None => entry_data(entries_view(entries@), name@) is None,
        },
{
    let ghost es = entries_view(entries@);
    proof {
        assert(es.skip(0) =~= es);
    }
    let mut i: usize = 0;
    while i < entries.len()
        invariant
            i <= entries.len(),
            es == entries_view(entries@),
            entry_data(es, name@) == entry_data(es.skip(i as int), name@),
        decreases entries.len() - i,
    {
        proof {
            assert(es.skip(i as int)[0] == es[i as int]);
            assert(es[i as int] == entries@[i as int]@);
            assert(es.skip(i as int).drop_first() =~= es.skip(i + 1));
        }
        if str_eq(entries[i].name.as_str(), name) {
            return Some(i);
        }
        i = i + 1;
    }
    proof {
        assert(es.skip(es.len() as int) =~= Seq::<(Seq<char>, Seq<u8>)>::empty());
    }
    None
}

} // verus!
