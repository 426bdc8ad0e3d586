//! Decoding the script's standard output into a metadata record.
//!
//! The output must hold exactly one JSON object; each of the six
//! known fields may be absent, null, or a string, and any other field
//! is ignored whatever it holds.  Parsing is serde_json's work behind
//! trusted declarations; the record logic on the parsed object is
//! verified against their contracts.

use vstd::prelude::*;
use vstd::string::*;
use vstd::pervasive::arbitrary;

use crate::errors::FetchError;
use crate::metadata::YtDlpResult;
use crate::metadata::YtDlpResultView;
use crate::metadata::opt_str_view;

verus! {

#[verifier::external_type_specification]
#[verifier::external_body]
pub struct ExValue(serde_json::Value);

#[verifier::external_type_specification]
#[verifier::external_body]
pub struct ExJsonError(serde_json::Error);

/// What a parsed JSON value holds, field by field: `None` when the
/// value is not an object; otherwise one entry per field, whose value
/// is `Some(Some(s))` for a string `s`, `Some(None)` for null, and
/// `None` for a value of any other type.
pub uninterp spec fn value_object(v: serde_json::Value) -> Option<
    Map<Seq<char>, Option<Option<Seq<char>>>>,
>;

/// What serde_json's parser yields on `s`: `None` when `s` is not one
/// valid JSON document, otherwise the object model of the parsed
/// value.
pub uninterp spec fn json_object(s: Seq<char>) -> Option<
    Option<Map<Seq<char>, Option<Option<Seq<char>>>>>,
>;

/// Relies on `serde_json::from_str::<Value>`: it parses exactly one
/// JSON document from the text, or reports an error.
#[verifier::external_body]
fn parse_json(s: &str) -> (r: Result<serde_json::Value, serde_json::Error>)
    ensures
        r is Ok <==> json_object(s@) is Some,
        r matches Ok(v) ==> (json_object(s@) matches Some(obj) && value_object(v) == obj),
{
    serde_json::from_str(s)
}

/// Relies on `serde_json::Value::is_object`.
#[verifier::external_body]
fn value_is_object(v: &serde_json::Value) -> (r: bool)
    ensures
        r == (value_object(*v) is Some),
{
    v.is_object()
}

/// Relies on `serde_json::Error`'s display text for the error
/// message.
#[verifier::external_body]
fn json_error_text(e: &serde_json::Error) -> (r: String) {
    e.to_string()
}

/// One field of a parsed object, mapped to a plain value.
enum FieldLookup {
    /// The key is absent.
    Absent,
    /// The key holds JSON null.
    Null,
    /// The key holds a string.
    Text(String),
    /// The key holds a value of any other type.
    Mistyped,
}

/// Relies on `serde_json::Value::get` with a string index: it yields
/// the named field of an object value and nothing on a non-object;
/// the field's value is told apart by `Value`'s own variants.
#[verifier::external_body]
fn field_lookup(v: &serde_json::Value, key: &str) -> (r: FieldLookup)
    ensures
        value_object(*v) matches Some(obj) ==> (match r {
            FieldLookup::Absent => !obj.contains_key(key@),
            FieldLookup::Null => obj.contains_key(key@) && obj[key@] == Option::Some(
                Option::<Seq<char>>::None,
            ),
            FieldLookup::Text(s) => obj.contains_key(key@) && obj[key@] == Option::Some(
                Option::Some(s@),
            ),
            FieldLookup::Mistyped => obj.contains_key(key@) && obj[key@] is None,
        }),
        value_object(*v) is None ==> r is Absent,
{
    match v.get(key) {
        None => FieldLookup::Absent,
        Some(serde_json::Value::Null) => FieldLookup::Null,
        Some(serde_json::Value::String(s)) => FieldLookup::Text(s.clone()),
        Some(serde_json::Value::Bool(_)) => FieldLookup::Mistyped,
        Some(serde_json::Value::Number(_)) => FieldLookup::Mistyped,
        Some(serde_json::Value::Array(_)) => FieldLookup::Mistyped,
        Some(serde_json::Value::Object(_)) => FieldLookup::Mistyped,
    }
}

/// Whether field `k` of object model `obj` is decodable: absent,
/// null, or a string.
pub open spec fn field_ok(obj: Map<Seq<char>, Option<Option<Seq<char>>>>, k: Seq<char>) -> bool {
    obj.contains_key(k) ==> obj[k] is Some
}

/// The decoded value of field `k`: the string if one is there,
/// nothing when the field is absent or null.
pub open spec fn field_value(obj: Map<Seq<char>, Option<Option<Seq<char>>>>, k: Seq<char>) -> Option<
    Seq<char>,
> {
    if obj.contains_key(k) {
        match obj[k] {
            Option::Some(Option::Some(t)) => Option::Some(t),
            _ => Option::None,
        }
    } else {
        Option::None
    }
}

/// Whether every known field of the record is decodable.
pub open spec fn record_fields_ok(obj: Map<Seq<char>, Option<Option<Seq<char>>>>) -> bool {
    &&& field_ok(obj, "song_name"@)
    &&& field_ok(obj, "artist"@)
    &&& field_ok(obj, "icon_url"@)
    &&& field_ok(obj, "language_fetched"@)
    &&& field_ok(obj, "lyrics"@)
    &&& field_ok(obj, "error"@)
}

/// Whether text `s` decodes to a metadata record: it parses as one
/// JSON object whose known fields are each absent, null or a string.
pub open spec fn decode_ok(s: Seq<char>) -> bool {
    match json_object(s) {
        Option::Some(Option::Some(obj)) => record_fields_ok(obj),
        _ => false,
    }
}

/// The record view that text `s` decodes to, when `decode_ok(s)`.
pub open spec fn decoded_record(s: Seq<char>) -> YtDlpResultView
    recommends
        decode_ok(s),
{
    match json_object(s) {
        Option::Some(Option::Some(obj)) => YtDlpResultView {
            song_name: field_value(obj, "song_name"@),
            artist: field_value(obj, "artist"@),
            icon_url: field_value(obj, "icon_url"@),
            language_fetched: field_value(obj, "language_fetched"@),
            lyrics: field_value(obj, "lyrics"@),
            error: field_value(obj, "error"@),
        },
        _ => arbitrary(),
    }
}

/// Decode one known field of a parsed object value.
fn string_field(v: &serde_json::Value, key: &str) -> (r: Result<Option<String>, FetchError>)
    requires
        value_object(*v) is Some,
    ensures
        value_object(*v) matches Some(obj) ==> ({
            &&& r is Ok <==> field_ok(obj, key@)
            &&& r matches Ok(f) ==> opt_str_view(f) == field_value(obj, key@)
            &&& r matches Err(e) ==> e is MalformedOutput
        }),
{
    match field_lookup(v, key) {
        FieldLookup::Absent => Ok(None),
        FieldLookup::Null => Ok(None),
        FieldLookup::Text(s) => Ok(Some(s)),
        FieldLookup::Mistyped => Err(
            FetchError::MalformedOutput(String::from_str("unexpected type for a metadata field")),
        ),
    }
}

/// Decode the script's standard output into a metadata record.
///
/// Succeeds exactly when the text parses as one JSON object whose
/// known fields are each absent, null or a string; fields absent or
/// null come out empty, unrecognized fields are ignored, and every
/// other outcome is a malformed-output error — never a partially
/// filled record.
pub fn decode_metadata(s: &str) -> (r: Result<YtDlpResult, FetchError>)
    ensures
        r is Ok <==> decode_ok(s@),
        r matches Ok(rec) ==> rec@ == decoded_record(s@),
        r matches Err(e) ==> e is MalformedOutput,
{
    match parse_json(s) {
        Err(e) => {
            let text = json_error_text(&e);
            Err(FetchError::MalformedOutput(text))
        },
        Ok(v) => {
            if !value_is_object(&v) {
                Err(FetchError::MalformedOutput(String::from_str("expected a JSON object")))
            } else {
                let song_name = string_field(&v, "song_name")?;
                let artist = string_field(&v, "artist")?;
                let icon_url = string_field(&v, "icon_url")?;
                let language_fetched = string_field(&v, "language_fetched")?;
                let lyrics = string_field(&v, "lyrics")?;
                let error = string_field(&v, "error")?;
                Ok(
                    YtDlpResult {
                        song_name,
                        artist,
                        icon_url,
                        language_fetched,
                        lyrics,
                        error,
                    },
                )
            }
        },
    }
}

} // verus!
