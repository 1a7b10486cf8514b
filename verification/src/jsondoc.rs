//! Structured documents carried through the pipeline: the installer's
//! version document and install profile. The documents are handled by
//! serde_json and stay opaque; the contracts speak of them through named
//! observations: the top-level string fields, the profile's data map, and
//! the pretty-printed form.

use vstd::prelude::*;
use crate::profile::{entries_view, ProfileDataEntry};
use crate::InstallError;

verus! {

#[verifier::external_type_specification]
#[verifier::external_body]
pub struct ExJsonValue(serde_json::Value);

/// Whether the given bytes parse as one JSON document.
pub uninterp spec fn json_parse_ok(bytes: Seq<u8>) -> bool;

/// Whether the document is a JSON object.
pub uninterp spec fn json_is_object(v: serde_json::Value) -> bool;

/// The string held by a top-level field of the document, when the field is
/// present and holds a string.
pub uninterp spec fn json_str_field(v: serde_json::Value, key: Seq<char>) -> Option<Seq<char>>;

/// The entries of the document's top-level "data" object, each read as a
/// key with optional client/server strings, in the document's key order; an
/// absent "data" field reads as no entries, a non-object one as nothing.
pub uninterp spec fn json_data_of(v: serde_json::Value) -> Option<
    Seq<(Seq<char>, Option<Seq<char>>, Option<Seq<char>>)>,
>;

/// The pretty-printed text of the document.
pub uninterp spec fn json_pretty(v: serde_json::Value) -> Seq<char>;

/// The pretty-printed text of the document with its "data" field replaced
/// by the given entries.
pub uninterp spec fn json_pretty_with_data(
    v: serde_json::Value,
    entries: Seq<(Seq<char>, Option<Seq<char>>, Option<Seq<char>>)>,
) -> Seq<char>;

/// Relies on serde_json::from_slice::<Value>: whether bytes parse as a JSON
/// document is a function of the bytes alone.
#[verifier::external_body]
fn parse_value(bytes: &Vec<u8>) -> (r: Option<serde_json::Value>)
    ensures
        r is Some <==> json_parse_ok(bytes@),
{
    serde_json::from_slice(bytes.as_slice()).ok()
}

/// Parses one embedded document; bytes that are not JSON are a bad archive.
pub fn parse_json_document(bytes: &Vec<u8>) -> (r: Result<serde_json::Value, InstallError>)
    ensures
        r is Ok <==> json_parse_ok(bytes@),
        r is Err ==> r.unwrap_err() == InstallError::BadInstallerArchive,
{
    match parse_value(bytes) {
        Some(v) => Ok(v),
        None => Err(InstallError::BadInstallerArchive),
    }
}

/// Relies on serde_json::Value::is_object.
#[verifier::external_body]
pub(crate) fn value_is_object(v: &serde_json::Value) -> (r: bool)
    ensures
        r == json_is_object(*v),
{
    v.is_object()
}

/// Relies on serde_json::Value::get and Value::as_str: reads the string
/// held by one top-level field.
#[verifier::external_body]
pub(crate) fn get_string_field(v: &serde_json::Value, key: &str) -> (r: Option<String>)
    ensures
        match r {
            Some(s) => json_str_field(*v, key@) == Some(s@),
            None => json_str_field(*v, key@) is None,
        },
{
    match v.get(key) {
        Some(serde_json::Value::String(s)) => Some(s.clone()),
        _ => None,
    }
}

/// Relies on serde_json's map insertion through Value::as_object_mut:
/// inserts or replaces the one field named by `key` with a string, leaving
/// every other field as it was.
#[verifier::external_body]
pub(crate) fn set_string_field(v: &mut serde_json::Value, key: &str, val: &str)
    requires
        json_is_object(*old(v)),
    ensures
        json_is_object(*final(v)),
        json_str_field(*final(v), key@) == Some(val@),
        forall|k: Seq<char>|
            k != key@ ==> #[trigger] json_str_field(*final(v), k) == json_str_field(*old(v), k),
{
    if let Some(obj) = v.as_object_mut() {
        obj.insert(key.to_string(), serde_json::Value::String(val.to_string()));
    }
}

/// Relies on Value::get("data"), object iteration (in the map's key order)
/// and Value::as_str: the entries of the data map, a field absent or not a
/// string read as unset, a "data" field that is not an object read as none.
#[verifier::external_body]
pub(crate) fn read_profile_data(v: &serde_json::Value) -> (r: Option<Vec<ProfileDataEntry>>)
    ensures
        match r {
            Some(es) => json_data_of(*v) == Some(entries_view(es@)),
            None => json_data_of(*v) is None,
        },
{
    match v.get("data") {
        None => Some(Vec::new()),
        Some(serde_json::Value::Object(m)) => {
            let mut out = Vec::new();
            for (k, val) in m {
                let client = val.get("client").and_then(|c| c.as_str()).map(String::from);
                let server = val.get("server").and_then(|c| c.as_str()).map(String::from);
                out.push(ProfileDataEntry { key: k.clone(), client, server });
            }
            Some(out)
        },
        Some(_) => None,
    }
}

/// Relies on serde_json::to_string_pretty for a Value, which never fails.
#[verifier::external_body]
pub(crate) fn to_pretty_string(v: &serde_json::Value) -> (r: String)
    ensures
        r@ == json_pretty(*v),
{
    serde_json::to_string_pretty(v).unwrap_or_default()
}

/// Relies on serde_json map building and to_string_pretty: pretty-prints
/// the document with its "data" field replaced by the given entries; the
/// result is a function of the document and the entries alone.
#[verifier::external_body]
pub(crate) fn pretty_with_data(v: &serde_json::Value, entries: &Vec<ProfileDataEntry>) -> (r: String)
    ensures
        r@ == json_pretty_with_data(*v, entries_view(entries@)),
{
    let mut doc = v.clone();
    let mut map = serde_json::Map::new();
    for e in entries {
        let mut side = serde_json::Map::new();
        if let Some(c) = &e.client { side.insert("client".into(), c.clone().into()); }
        if let Some(s) = &e.server { side.insert("server".into(), s.clone().into()); }
        map.insert(e.key.clone(), serde_json::Value::Object(side));
    }
    if let Some(obj) = doc.as_object_mut() {
        obj.insert("data".into(), serde_json::Value::Object(map));
    }
    serde_json::to_string_pretty(&doc).unwrap_or_default()
}

/// The caller-supplied overrides of an install invocation.
pub struct InstallForgeOptions {
    pub version_id: Option<String>,
    pub inherits_from: Option<String>,
}

/// Applies the caller's overrides to a parsed version document: an explicit
/// version id replaces the document's `id`, an explicit parent replaces its
/// `inheritsFrom`; every other field is left alone. A document that is not
/// an object cannot be patched and is reported as a bad archive.
pub fn patch_version_document(doc: &mut serde_json::Value, options: &Option<InstallForgeOptions>)
    -> (r: Result<(), InstallError>)
    ensures
        r is Ok <==> json_is_object(*old(doc)),
        r is Err ==> *final(doc) == *old(doc) && r.unwrap_err()
            == InstallError::BadInstallerArchive,
        r is Ok ==> json_is_object(*final(doc)),
        r is Ok ==> (match options {
            Some(o) => {
                &&& (match o.version_id {
                    Some(id) => json_str_field(*final(doc), "id"@) == Some(id@),
                    None => json_str_field(*final(doc), "id"@) == json_str_field(
                        *old(doc),
                        "id"@,
                    ),
                })
                &&& (match o.inherits_from {
                    Some(p) => json_str_field(*final(doc), "inheritsFrom"@) == Some(p@),
                    None => json_str_field(*final(doc), "inheritsFrom"@) == json_str_field(
                        *old(doc),
                        "inheritsFrom"@,
                    ),
                })
                &&& forall|k: Seq<char>|
                    k != "id"@ && k != "inheritsFrom"@ ==> #[trigger] json_str_field(
                        *final(doc),
                        k,
                    ) == json_str_field(*old(doc), k)
            },
            None => *final(doc) == *old(doc),
        }),
{
    if !value_is_object(doc) {
        return Err(InstallError::BadInstallerArchive);
    }
    proof {
        reveal_strlit("id");
        reveal_strlit("inheritsFrom");
        assert("id"@.len() == 2);
        assert("inheritsFrom"@.len() == 12);
        assert("id"@ != "inheritsFrom"@);
    }
    match options {
        None => Ok(()),
        Some(o) => {
            match &o.version_id {
                Some(id) => {
                    set_string_field(doc, "id", id.as_str());
                },
                None => {},
            }
            match &o.inherits_from {
                Some(p) => {
                    set_string_field(doc, "inheritsFrom", p.as_str());
                },
                None => {},
            }
            Ok(())
        },
    }
}

} // verus!
