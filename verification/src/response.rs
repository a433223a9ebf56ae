//! Status-code-driven outcome of the two provider calls.  The network edge
//! hands in the HTTP status and the response body as plain values; these
//! functions decide what the run does with them, with the bodies' contents
//! pinned through the named field functions of the JSON face.

use crate::json;
use crate::json::{auth_body_ok, text_i64_field, text_str_array_field, text_str_field,
    text_u64_field, validation_body_ok};
use crate::records::{ACheckError, TwitchAuthError, VerifiedJson};
use vstd::prelude::*;
use vstd::string::StringExecFns;

verus! {

/// The confirmation line printed after a successful revocation.
pub open spec fn confirmation_message(login: Seq<char>) -> Seq<char> {
    "Token for user \""@ + login + "\" has been revoked succesfully."@
}

/// Parses a provider error body (`{"status": ..., "message": ...}`).
/// Succeeds exactly when the body parses and has that shape, and then
/// carries the body's own status and message; anything else is reported as
/// a body of the wrong shape.
pub fn provider_error_of_body(body: &str) -> (r: Result<TwitchAuthError, ACheckError>)
    ensures
        r is Ok <==> auth_body_ok(body@),
        r matches Ok(auth) ==> (auth.status as u64 == text_u64_field(body@, "status"@)->0
            && auth.message@ == text_str_field(body@, "message"@)->0),
        r matches Err(e) ==> e matches ACheckError::DeserializeError(_),
{
    match json::parse_json(body) {
        Ok(doc) => {
            let auth = json::auth_error_of_json(&doc);
            proof {
                assert(json::doc_u64_field(doc, "status"@) == text_u64_field(body@, "status"@));
                assert(json::doc_str_field(doc, "message"@) == text_str_field(body@, "message"@));
            }
            match auth {
                Some(auth) => Ok(auth),
                None => Err(
                    ACheckError::DeserializeError(
                        "provider error body does not match the documented shape".to_owned(),
                    ),
                ),
            }
        },
        Err(e) => Err(ACheckError::DeserializeError(json::json_error_message(&e))),
    }
}

/// Decides the outcome of the validation call from its HTTP status code and
/// response body: 200 yields the validation record carried by the body —
/// exactly when the body has the documented shape — 401 surfaces the
/// provider's own invalid-token message, 404 marks the endpoint as gone,
/// and every other code is undocumented.
pub fn handle_validation_response(status: u16, body: &str) -> (r: Result<
    VerifiedJson,
    ACheckError,
>)
    ensures
        status == 200 ==> ((r matches Ok(_)) <==> validation_body_ok(body@)),
        status == 200 ==> (r matches Ok(rec) ==> (rec.client_id@ == text_str_field(
            body@,
            "client_id"@,
        )->0 && rec.login@ == text_str_field(body@, "login"@)->0 && rec.scopes.deep_view()
            == text_str_array_field(body@, "scopes"@)->0 && rec.user_id@ == text_str_field(
            body@,
            "user_id"@,
        )->0 && rec.expires_in as i64 == text_i64_field(body@, "expires_in"@)->0)),
        status == 200 ==> (r matches Err(e) ==> e matches ACheckError::DeserializeError(_)),
        status == 401 && auth_body_ok(body@) ==> (r matches Err(ACheckError::InvalidToken(m)) && m@
            == text_str_field(body@, "message"@)->0),
        status == 401 && !auth_body_ok(body@) ==> r matches Err(ACheckError::DeserializeError(_)),
        status == 404 ==> r == Err::<VerifiedJson, ACheckError>(ACheckError::NotFound(404)),
        status != 200 && status != 401 && status != 404 ==> r == Err::<VerifiedJson, ACheckError>(
            ACheckError::UnexpectedCode(status),
        ),
{
    if status == 200 {
        match json::parse_json(body) {
            Ok(doc) => {
                let rec = json::record_of_json(&doc);
                proof {
                    assert(json::doc_str_field(doc, "client_id"@) == text_str_field(
                        body@,
                        "client_id"@,
                    ));
                    assert(json::doc_str_field(doc, "login"@) == text_str_field(body@, "login"@));
                    assert(json::doc_str_array_field(doc, "scopes"@) == text_str_array_field(
                        body@,
                        "scopes"@,
                    ));
                    assert(json::doc_str_field(doc, "user_id"@) == text_str_field(
                        body@,
                        "user_id"@,
                    ));
                    assert(json::doc_i64_field(doc, "expires_in"@) == text_i64_field(
                        body@,
                        "expires_in"@,
                    ));
                }
                match rec {
                    Some(rec) => Ok(rec),
                    None => Err(
                        ACheckError::DeserializeError(
                            "validation response body does not match the documented shape".to_owned(),
                        ),
                    ),
                }
            },
            Err(e) => Err(ACheckError::DeserializeError(json::json_error_message(&e))),
        }
    } else if status == 401 {
        match provider_error_of_body(body) {
            Ok(auth) => Err(ACheckError::InvalidToken(auth.message)),
            Err(e) => Err(e),
        }
    } else if status == 404 {
        Err(ACheckError::NotFound(404))
    } else {
        Err(ACheckError::UnexpectedCode(status))
    }
}

/// Decides the outcome of the revocation call from its HTTP status code and
/// response body; `login` is the account name the confirmation line cites.
/// 200 confirms the revocation, 400 refuses the token outright, 404 carries
/// the provider's own message — exactly when the body has the documented
/// error shape — and every other code is undocumented.
pub fn handle_revocation_response(status: u16, body: &str, login: &str) -> (r: Result<
    String,
    ACheckError,
>)
    ensures
        status == 200 ==> (r matches Ok(m) && m@ == confirmation_message(login@)),
        status == 400 ==> (r matches Err(e) && e matches ACheckError::InvalidToken(m) && m@
            == "token is invalid"@),
        status == 404 && auth_body_ok(body@) ==> (r matches Err(ACheckError::InvalidToken(m)) && m@
            == text_str_field(body@, "message"@)->0),
        status == 404 && !auth_body_ok(body@) ==> r matches Err(ACheckError::DeserializeError(_)),
        status != 200 && status != 400 && status != 404 ==> r == Err::<String, ACheckError>(
            ACheckError::UnexpectedCode(status),
        ),
{
    if status == 200 {
        let mut m = "Token for user \"".to_owned();
        m.append(login);
        m.append("\" has been revoked succesfully.");
        Ok(m)
    } else if status == 400 {
        Err(ACheckError::InvalidToken("token is invalid".to_owned()))
    } else if status == 404 {
        match provider_error_of_body(body) {
            Ok(auth) => Err(ACheckError::InvalidToken(auth.message)),
            Err(e) => Err(e),
        }
    } else {
        Err(ACheckError::UnexpectedCode(status))
    }
}

} // verus!
