//! Trusted face of the JSON handling done by serde_json, and the verified
//! extraction of the two provider records from a parsed document.
//!
//! Whether a body parses, and which fields the parsed document carries, are
//! functions of the body text alone, so both are given uninterpreted names:
//! `json_parses` and the `text_*` functions speak of the text, the `doc_*`
//! functions of the opaque parsed document, and the parse pins the two
//! layers to each other.  Everything downstream — field extraction, record
//! assembly, the status handlers — is verified against these names.

use crate::records::{TwitchAuthError, VerifiedJson};
use vstd::prelude::*;

verus! {

/// Carrier for `serde_json::Value`, the parsed form of a response body.
#[verifier::external_type_specification]
#[verifier::external_body]
pub struct ExValue(serde_json::Value);

/// Carrier for `serde_json::Error`, serde_json's description of a failed
/// parse.
#[verifier::external_type_specification]
#[verifier::external_body]
pub struct ExJsonError(serde_json::Error);

/// Whether serde_json parses the text as a JSON document.
pub uninterp spec fn json_parses(s: Seq<char>) -> bool;

/// The string field of the document parsed from `s` under `key`, when the
/// text parses and the field is a JSON string.
pub uninterp spec fn text_str_field(s: Seq<char>, key: Seq<char>) -> Option<Seq<char>>;

/// As `text_str_field`, for a field that is an integer fitting `u64`.
pub uninterp spec fn text_u64_field(s: Seq<char>, key: Seq<char>) -> Option<u64>;

/// As `text_str_field`, for a field that is an integer fitting `i64`.
pub uninterp spec fn text_i64_field(s: Seq<char>, key: Seq<char>) -> Option<i64>;

/// As `text_str_field`, for a field that is an array of JSON strings.
pub uninterp spec fn text_str_array_field(s: Seq<char>, key: Seq<char>) -> Option<Seq<Seq<char>>>;

/// The string field of the document `v` under `key`, when `v` is an object
/// and the field is a JSON string.
pub uninterp spec fn doc_str_field(v: serde_json::Value, key: Seq<char>) -> Option<Seq<char>>;

/// As `doc_str_field`, for a field that is an integer fitting `u64`.
pub uninterp spec fn doc_u64_field(v: serde_json::Value, key: Seq<char>) -> Option<u64>;

/// As `doc_str_field`, for a field that is an integer fitting `i64`.
pub uninterp spec fn doc_i64_field(v: serde_json::Value, key: Seq<char>) -> Option<i64>;

/// As `doc_str_field`, for a field that is an array of JSON strings.
pub uninterp spec fn doc_str_array_field(v: serde_json::Value, key: Seq<char>) -> Option<
    Seq<Seq<char>>,
>;

/// Relies on `serde_json::from_str::<Value>`: parses the text as a JSON
/// document, or reports why it is not one.  Parsing is deterministic in the
/// text, so its success has a name; the fields the getters find in the
/// returned document are likewise functions of the text alone, which the
/// quantified clauses state.
#[verifier::external_body]
pub(crate) fn parse_json(s: &str) -> (r: Result<serde_json::Value, serde_json::Error>)
    ensures
        r is Ok <==> json_parses(s@),
        r matches Ok(v) ==> (forall|key: Seq<char>| #[trigger]
            doc_str_field(v, key) == text_str_field(s@, key)),
        r matches Ok(v) ==> (forall|key: Seq<char>| #[trigger]
            doc_u64_field(v, key) == text_u64_field(s@, key)),
        r matches Ok(v) ==> (forall|key: Seq<char>| #[trigger]
            doc_i64_field(v, key) == text_i64_field(s@, key)),
        r matches Ok(v) ==> (forall|key: Seq<char>| #[trigger]
            doc_str_array_field(v, key) == text_str_array_field(s@, key)),
{
    serde_json::from_str(s)
}

/// Relies on the `Display` implementation of `serde_json::Error`: the
/// human-readable reason the parse failed.
#[verifier::external_body]
pub(crate) fn json_error_message(e: &serde_json::Error) -> (r: String) {
    format!("{}", e)
}

/// Relies on `serde_json::Value::get` and `Value::as_str`: the field of the
/// document under `key` when it is a JSON string; `None` when the document
/// is no object, the key is absent, or the field is no string.
#[verifier::external_body]
fn json_str_field(v: &serde_json::Value, key: &str) -> (r: Option<String>)
    ensures
        r is Some <==> doc_str_field(*v, key@) is Some,
        r matches Some(s) ==> s@ == doc_str_field(*v, key@)->0,
{
    v.get(key).and_then(|f| f.as_str()).map(|s| s.to_owned())
}

/// Relies on `serde_json::Value::get` and `Value::as_u64`: the field of the
/// document under `key` when it is an integer representable as `u64`.
#[verifier::external_body]
fn json_u64_field(v: &serde_json::Value, key: &str) -> (r: Option<u64>)
    ensures
        r == doc_u64_field(*v, key@),
{
    v.get(key).and_then(|f| f.as_u64())
}

/// Relies on `serde_json::Value::get` and `Value::as_i64`: the field of the
/// document under `key` when it is an integer representable as `i64`.
#[verifier::external_body]
fn json_i64_field(v: &serde_json::Value, key: &str) -> (r: Option<i64>)
    ensures
        r == doc_i64_field(*v, key@),
{
    v.get(key).and_then(|f| f.as_i64())
}

/// Relies on `serde_json::Value::get`, `Value::as_array` and
/// `Value::as_str`: the field of the document under `key` when it is an
/// array of JSON strings, element for element and in order; `None` when the
/// field is absent, no array, or holds a non-string element.
#[verifier::external_body]
fn json_str_array_field(v: &serde_json::Value, key: &str) -> (r: Option<Vec<String>>)
    ensures
        r is Some <==> doc_str_array_field(*v, key@) is Some,
        r matches Some(xs) ==> xs.deep_view() == doc_str_array_field(*v, key@)->0,
{
    let arr = match v.get(key).and_then(|f| f.as_array()) {
        Some(arr) => arr,
        None => return None,
    };
    arr.iter().map(|e| e.as_str().map(|s| s.to_owned())).collect::<Option<Vec<String>>>()
}

/// The shape the validation endpoint documents for a 200 body, read off the
/// parsed document: the four string fields, the scopes array, and a
/// lifetime that fits the record's signed 32-bit field.
pub open spec fn validation_doc_ok(v: serde_json::Value) -> bool {
    doc_str_field(v, "client_id"@) is Some && doc_str_field(v, "login"@) is Some
        && doc_str_array_field(v, "scopes"@) is Some && doc_str_field(v, "user_id"@) is Some && (
    doc_i64_field(v, "expires_in"@) matches Some(n) && i32::MIN <= n <= i32::MAX)
}

/// The same shape, read off the body text: the text parses and carries the
/// five fields.
pub open spec fn validation_body_ok(s: Seq<char>) -> bool {
    json_parses(s) && text_str_field(s, "client_id"@) is Some && text_str_field(s, "login"@)
        is Some && text_str_array_field(s, "scopes"@) is Some && text_str_field(s, "user_id"@)
        is Some && (text_i64_field(s, "expires_in"@) matches Some(n) && i32::MIN <= n <= i32::MAX)
}

/// The shape of a provider error body, read off the parsed document: a
/// status that fits 16 bits and a message string.
pub open spec fn auth_doc_ok(v: serde_json::Value) -> bool {
    (doc_u64_field(v, "status"@) matches Some(c) && c <= u16::MAX) && doc_str_field(
        v,
        "message"@,
    ) is Some
}

/// The same shape, read off the body text.
pub open spec fn auth_body_ok(s: Seq<char>) -> bool {
    json_parses(s) && (text_u64_field(s, "status"@) matches Some(c) && c <= u16::MAX)
        && text_str_field(s, "message"@) is Some
}

/// Assembles a validation record from the raw optional fields of a response
/// body.  Succeeds exactly when every field is present with the right kind
/// and the lifetime fits the record's signed 32-bit field; the record then
/// carries the five inputs unchanged.
pub fn build_record(
    client_id: Option<String>,
    login: Option<String>,
    scopes: Option<Vec<String>>,
    user_id: Option<String>,
    expires_in: Option<i64>,
) -> (r: Option<VerifiedJson>)
    ensures
        r is Some <==> (client_id is Some && login is Some && scopes is Some && user_id is Some
            && expires_in is Some && i32::MIN <= expires_in->0 <= i32::MAX),
        r matches Some(rec) ==> (rec.client_id == client_id->0 && rec.login == login->0
            && rec.scopes == scopes->0 && rec.user_id == user_id->0 && rec.expires_in as i64
            == expires_in->0),
{
    match (client_id, login, scopes, user_id, expires_in) {
        (Some(client_id), Some(login), Some(scopes), Some(user_id), Some(expires_in)) => {
            if i32::MIN as i64 <= expires_in && expires_in <= i32::MAX as i64 {
                Some(
                    VerifiedJson {
                        client_id,
                        login,
                        scopes,
                        user_id,
                        expires_in: expires_in as i32,
                    },
                )
            } else {
                None
            }
        }
        _ => None,
    }
}

/// Assembles a provider error record from the raw optional fields of a
/// response body.  Succeeds exactly when both fields are present with the
/// right kind and the status fits 16 bits; the record then carries the two
/// inputs unchanged.
pub fn build_auth_error(status: Option<u64>, message: Option<String>) -> (r: Option<
    TwitchAuthError,
>)
    ensures
        r is Some <==> (status is Some && status->0 <= u16::MAX && message is Some),
        r matches Some(e) ==> (e.status as u64 == status->0 && e.message == message->0),
{
    match (status, message) {
        (Some(status), Some(message)) => {
            if status <= u16::MAX as u64 {
                Some(TwitchAuthError { status: status as u16, message })
            } else {
                None
            }
        }
        _ => None,
    }
}

/// Reads the five fields of a successful validation body out of the parsed
/// document.  Succeeds exactly when the document has the documented shape;
/// the record then carries the document's fields unchanged.
pub fn record_of_json(v: &serde_json::Value) -> (r: Option<VerifiedJson>)
    ensures
        r is Some <==> validation_doc_ok(*v),
        r matches Some(rec) ==> (rec.client_id@ == doc_str_field(*v, "client_id"@)->0 && rec.login@
            == doc_str_field(*v, "login"@)->0 && rec.scopes.deep_view() == doc_str_array_field(
            *v,
            "scopes"@,
        )->0 && rec.user_id@ == doc_str_field(*v, "user_id"@)->0 && rec.expires_in as i64
            == doc_i64_field(*v, "expires_in"@)->0),
{
    let client_id = json_str_field(v, "client_id");
    let login = json_str_field(v, "login");
    let scopes = json_str_array_field(v, "scopes");
    let user_id = json_str_field(v, "user_id");
    let expires_in = json_i64_field(v, "expires_in");
    build_record(client_id, login, scopes, user_id, expires_in)
}

/// Reads the two fields of a provider error body out of the parsed
/// document.  Succeeds exactly when the document has the documented shape;
/// the error record then carries the document's fields unchanged.
pub fn auth_error_of_json(v: &serde_json::Value) -> (r: Option<TwitchAuthError>)
    ensures
        r is Some <==> auth_doc_ok(*v),
        r matches Some(e) ==> (e.status as u64 == doc_u64_field(*v, "status"@)->0 && e.message@
            == doc_str_field(*v, "message"@)->0),
{
    let status = json_u64_field(v, "status");
    let message = json_str_field(v, "message");
    build_auth_error(status, message)
}

} // verus!
