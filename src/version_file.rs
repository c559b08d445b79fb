use vstd::prelude::*;

use crate::error::InstallError;

verus! {

/// serde_json's JSON object, opaque here.
#[verifier::external_type_specification]
#[verifier::external_body]
#[verifier::reject_recursive_types(K)]
#[verifier::reject_recursive_types(V)]
pub struct ExJsonMap<K, V>(serde_json::Map<K, V>);

/// serde_json's JSON value, opaque here.
#[verifier::external_type_specification]
#[verifier::external_body]
pub struct ExJsonValue(serde_json::Value);

/// serde_json's error, opaque here.
#[verifier::external_type_specification]
#[verifier::external_body]
pub struct ExJsonError(serde_json::Error);

/// The entries of a JSON object, each value written as compact JSON text.
pub uninterp spec fn object_values(m: serde_json::Map<String, serde_json::Value>) -> Map<
    Seq<char>,
    Seq<char>,
>;

/// The entries of a JSON object whose values are strings.
pub uninterp spec fn object_strings(m: serde_json::Map<String, serde_json::Value>) -> Map<
    Seq<char>,
    Seq<char>,
>;

/// The object, with the arrays and objects inside it, nests at most 127
/// levels deep: as deep as serde_json reads text.
pub uninterp spec fn within_depth(m: serde_json::Map<String, serde_json::Value>) -> bool;

/// Whether JSON text holds an object.
pub uninterp spec fn json_is_object(text: Seq<char>) -> bool;

/// The entries of the object that JSON text holds, each value written as
/// compact JSON text.
pub uninterp spec fn json_values_of(text: Seq<char>) -> Map<Seq<char>, Seq<char>>;

/// The entries with string values of the object that JSON text holds.
pub uninterp spec fn json_strings_of(text: Seq<char>) -> Map<Seq<char>, Seq<char>>;

/// Relies on `serde_json::from_str`: reads JSON text that holds an object,
/// and fails on any other text or on nesting deeper than its limit; the
/// result depends on the text alone.
#[verifier::external_body]
fn parse_object(text: &str) -> (r: Result<
    serde_json::Map<String, serde_json::Value>,
    serde_json::Error,
>)
    ensures
        r is Ok <==> json_is_object(text@),
        r matches Ok(m) ==> object_values(m) == json_values_of(text@),
        r matches Ok(m) ==> object_strings(m) == json_strings_of(text@),
        r matches Ok(m) ==> within_depth(m),
{
    serde_json::from_str(text)
}

/// Relies on `serde_json::to_string`: writes an object as JSON text. It
/// fails only for a failing `Serialize` impl or a map with non-string keys,
/// neither of which an object of JSON values has. Within the nesting limit
/// the text reads back as the same entries (numbers exactly, as this crate
/// enables `float_roundtrip`).
#[verifier::external_body]
fn object_text(m: &serde_json::Map<String, serde_json::Value>) -> (r: Result<
    String,
    serde_json::Error,
>)
    requires
        within_depth(*m),
    ensures
        r is Ok,
        r matches Ok(t) ==> json_is_object(t@),
        r matches Ok(t) ==> json_values_of(t@) == object_values(*m),
        r matches Ok(t) ==> json_strings_of(t@) == object_strings(*m),
{
    serde_json::to_string(m)
}

/// Relies on `serde_json::Map::remove`: the key and its value are gone, the
/// other entries stay.
#[verifier::external_body]
fn remove_key(m: &mut serde_json::Map<String, serde_json::Value>, key: &str)
    ensures
        object_values(*final(m)) == object_values(*old(m)).remove(key@),
        object_strings(*final(m)) == object_strings(*old(m)).remove(key@),
        within_depth(*old(m)) ==> within_depth(*final(m)),
{
    m.remove(key);
}

/// Relies on `serde_json::Map::insert`: the key now holds the string, the
/// other entries stay.
#[verifier::external_body]
fn insert_string(m: &mut serde_json::Map<String, serde_json::Value>, key: &str, value: &str)
    ensures
        object_values(*final(m)).dom() == object_values(*old(m)).dom().insert(key@),
        object_values(*final(m)).remove(key@) == object_values(*old(m)).remove(key@),
        object_strings(*final(m)) == object_strings(*old(m)).insert(key@, value@),
        within_depth(*old(m)) ==> within_depth(*final(m)),
{
    m.insert(key.to_owned(), serde_json::Value::String(value.to_owned()));
}

/// Turns the vendor's version descriptor into the merged one: without a
/// `jar` entry, with `id` naming the merged version, and every other entry
/// as it was.
pub fn merge_version_object(m: &mut serde_json::Map<String, serde_json::Value>, id: &str)
    ensures
        object_values(*final(m)).dom() == object_values(*old(m)).dom().remove("jar"@).insert(
            "id"@,
        ),
        object_values(*final(m)).remove("id"@) == object_values(*old(m)).remove("jar"@).remove(
            "id"@,
        ),
        object_strings(*final(m)) == object_strings(*old(m)).remove("jar"@).insert("id"@, id@),
        within_depth(*old(m)) ==> within_depth(*final(m)),
{
    let ghost before = object_values(*m);
    remove_key(m, "jar");
    let ghost middle = object_values(*m);
    insert_string(m, "id", id);
    assert(middle.remove("id"@) =~= before.remove("jar"@).remove("id"@));
}

/// The merged version descriptor for the vendor's descriptor text `json`:
/// the same object without `jar`, with `id` set, and every other entry as it
/// was; an error if the text is not a JSON object.
pub fn merge_version_json(json: &str, id: &str) -> (r: Result<String, InstallError>)
    ensures
        r is Ok <==> json_is_object(json@),
        r matches Err(e) ==> e is Io,
        r matches Ok(t) ==> json_is_object(t@),
        r matches Ok(t) ==> json_values_of(t@).dom() == json_values_of(json@).dom().remove(
            "jar"@,
        ).insert("id"@),
        r matches Ok(t) ==> json_values_of(t@).remove("id"@) == json_values_of(json@).remove(
            "jar"@,
        ).remove("id"@),
        r matches Ok(t) ==> json_strings_of(t@) == json_strings_of(json@).remove("jar"@).insert(
            "id"@,
            id@,
        ),
{
    let mut m = match parse_object(json) {
        Ok(m) => m,
        Err(_) => return Err(InstallError::Io(String::from_str("version descriptor is not a JSON object"))),
    };
    merge_version_object(&mut m, id);
    match object_text(&m) {
        Ok(t) => Ok(t),
        Err(_) => Err(InstallError::Io(String::from_str("version descriptor could not be written"))),
    }
}

} // verus!
