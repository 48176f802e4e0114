//! Reading the model selector out of a JSON configuration document.
//!
//! The document has the shape
//! `{"model": <name>, "substance_parameters": [...], "binary_parameters": [...]}`;
//! the binary array may be left out.
use vstd::prelude::*;
use serde_json::Value;
use crate::model::{model_from_name, model_of_name, ResidualModelKind};

verus! {

#[verifier::external_type_specification]
#[verifier::external_body]
pub struct ExJsonValue(serde_json::Value);

#[verifier::external_type_specification]
#[verifier::external_body]
pub struct ExJsonError(serde_json::Error);

/// The field that names the residual model.
pub const MODEL_FIELD: &'static str = "model";

/// The field that holds the array of pure-substance records.
pub const SUBSTANCES_FIELD: &'static str = "substance_parameters";

/// The field that holds the array of binary-interaction records.
pub const BINARIES_FIELD: &'static str = "binary_parameters";

/// Why a configuration document selects no equation of state.
#[derive(Clone, Copy, Debug, PartialEq, Eq, Structural)]
pub enum ConfigError {
    /// The text is not a JSON document.
    MalformedDocument,
    /// The model field is absent or is not a string.
    MissingModelName,
    /// The model field names no known model.
    UnknownModel,
    /// A parameter-record field holds something that is no array of records.
    MalformedRecords,
}

/// Whether `serde_json::from_str::<Value>` accepts a text: a function of the
/// text alone.
pub uninterp spec fn is_json_document(s: Seq<char>) -> bool;

/// The string held by field `key` of the JSON document `doc`, as indexing the
/// parsed value by `key` gives it: `None` where the document is no object,
/// has no such field, or holds no string there. A function of the text and
/// the key alone.
pub uninterp spec fn text_field_of(doc: Seq<char>, key: Seq<char>) -> Option<Seq<char>>;

/// The view of an optional text.
pub open spec fn opt_view(t: Option<String>) -> Option<Seq<char>> {
    match t {
        Some(s) => Some(s@),
        None => None,
    }
}

/// Relies on `serde_json::from_str::<Value>`, which parses a text into a
/// generic JSON value and succeeds exactly on JSON documents, and on
/// `Index<&str> for serde_json::Value`, which gives the field `key` of an
/// object, or `Null` where the value is no object or has no such field. The
/// field is handed back when it is a string.
#[verifier::external_body]
fn parse_document(s: &str, key: &str) -> (r: Result<(Value, Option<String>), serde_json::Error>)
    ensures
        r is Ok <==> is_json_document(s@),
        r matches Ok((_, f)) ==> opt_view(f) == text_field_of(s@, key@),
{
    let v = serde_json::from_str::<Value>(s)?;
    let f = match &v[key] {
        Value::String(t) => Some(t.clone()),
        _ => None,
    };
    Ok((v, f))
}

/// The model that the model field of a document selects, given that field
/// when it is a string.
pub open spec fn selected_model(field: Option<Seq<char>>) -> Result<ResidualModelKind, ConfigError> {
    match field {
        None => Err(ConfigError::MissingModelName),
        Some(name) => match model_of_name(name) {
            Some(kind) => Ok(kind),
            None => Err(ConfigError::UnknownModel),
        },
    }
}

/// Chooses the residual model from the model field of a document: `None`
/// when that field is absent or is not a string.
pub fn select_model(field: Option<&str>) -> (r: Result<ResidualModelKind, ConfigError>)
    ensures
        r == selected_model(
            match field {
                Some(name) => Some(name@),
                None => None,
            },
        ),
{
    match field {
        None => Err(ConfigError::MissingModelName),
        Some(name) => match model_from_name(name) {
            Some(kind) => Ok(kind),
            None => Err(ConfigError::UnknownModel),
        },
    }
}

/// The model choice of an outcome of [`model_in_document`], without the
/// parsed document.
pub open spec fn choice_of(r: Result<(ResidualModelKind, Value), ConfigError>) -> Result<ResidualModelKind, ConfigError> {
    match r {
        Ok((kind, _)) => Ok(kind),
        Err(e) => Err(e),
    }
}

/// What choosing the model of a configuration document gives: text that is
/// no JSON document is malformed; otherwise the model field decides.
pub open spec fn document_choice(doc: Seq<char>) -> Result<ResidualModelKind, ConfigError> {
    if is_json_document(doc) {
        selected_model(text_field_of(doc, MODEL_FIELD@))
    } else {
        Err(ConfigError::MalformedDocument)
    }
}

/// Parses a configuration document and chooses its residual model from its
/// model field. On success the parsed document is handed back, for its
/// parameter records.
pub fn model_in_document(doc: &str) -> (r: Result<(ResidualModelKind, Value), ConfigError>)
    ensures
        choice_of(r) == document_choice(doc@),
{
    let (value, field) = match parse_document(doc, MODEL_FIELD) {
        Ok(parsed) => parsed,
        Err(_) => return Err(ConfigError::MalformedDocument),
    };
    let kind = match field {
        Some(name) => select_model(Some(name.as_str())),
        None => select_model(None),
    };
    match kind {
        Ok(k) => Ok((k, value)),
        Err(e) => Err(e),
    }
}

/// The binary records of a document: an absent binary field stands for no
/// records, a field that could not be read is an error.
pub fn binary_records<T>(field_absent: bool, read: Option<Vec<T>>) -> (r: Result<Vec<T>, ConfigError>)
    ensures
        field_absent ==> (r matches Ok(v) && v@.len() == 0),
        !field_absent && read is Some ==> r == Ok::<Vec<T>, ConfigError>(read->Some_0),
        !field_absent && read is None ==> r == Err::<Vec<T>, ConfigError>(ConfigError::MalformedRecords),
{
    if field_absent {
        Ok(Vec::new())
    } else {
        match read {
            Some(records) => Ok(records),
            None => Err(ConfigError::MalformedRecords),
        }
    }
}

} // verus!
