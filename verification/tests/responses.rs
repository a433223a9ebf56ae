use revoker::records::ACheckError;
use revoker::response::{
    handle_revocation_response, handle_validation_response, provider_error_of_body,
};

const VALID_BODY: &str = "{\"client_id\":\"wbmytr93xzw8zbg0p1izqyzzc5mbiz\",\
                          \"login\":\"twitchdev\",\
                          \"scopes\":[\"channel:read:subscriptions\"],\
                          \"user_id\":\"141981764\",\
                          \"expires_in\":5520838}";

#[test]
fn validation_ok_body_yields_record_with_exact_fields() {
    let r = handle_validation_response(200, VALID_BODY);
    let rec = r.expect("a well-formed 200 body must yield a record");
    assert_eq!(rec.client_id, "wbmytr93xzw8zbg0p1izqyzzc5mbiz");
    assert_eq!(rec.login, "twitchdev");
    assert_eq!(rec.scopes, vec!["channel:read:subscriptions".to_string()]);
    assert_eq!(rec.user_id, "141981764");
    assert_eq!(rec.expires_in, 5520838);
}

#[test]
fn validation_accepts_non_expiring_sentinel() {
    let body = "{\"client_id\":\"a\",\"login\":\"b\",\"scopes\":[],\
                \"user_id\":\"c\",\"expires_in\":-1}";
    let rec = handle_validation_response(200, body).unwrap();
    assert_eq!(rec.expires_in, -1);
    assert!(rec.scopes.is_empty());
}

#[test]
fn validation_keeps_scope_order() {
    let body = "{\"client_id\":\"a\",\"login\":\"b\",\
                \"scopes\":[\"chat:read\",\"chat:edit\",\"whispers:read\"],\
                \"user_id\":\"c\",\"expires_in\":1}";
    let rec = handle_validation_response(200, body).unwrap();
    assert_eq!(
        rec.scopes,
        vec![
            "chat:read".to_string(),
            "chat:edit".to_string(),
            "whispers:read".to_string()
        ]
    );
}

#[test]
fn validation_unauthorized_carries_provider_message() {
    let body = "{\"status\":401,\"message\":\"invalid access token\"}";
    let r = handle_validation_response(401, body);
    match r {
        Err(ACheckError::InvalidToken(m)) => assert_eq!(m, "invalid access token"),
        other => panic!("expected InvalidToken, got {:?}", other),
    }
}

#[test]
fn validation_not_found_is_endpoint_level() {
    match handle_validation_response(404, "") {
        Err(ACheckError::NotFound(404)) => {}
        other => panic!("expected NotFound(404), got {:?}", other),
    }
}

#[test]
fn validation_undocumented_code_is_reported() {
    match handle_validation_response(500, "") {
        Err(ACheckError::UnexpectedCode(500)) => {}
        other => panic!("expected UnexpectedCode(500), got {:?}", other),
    }
}

#[test]
fn validation_rejects_unparsable_body() {
    match handle_validation_response(200, "not json at all") {
        Err(ACheckError::DeserializeError(_)) => {}
        other => panic!("expected DeserializeError, got {:?}", other),
    }
}

#[test]
fn validation_rejects_body_with_missing_field() {
    let body = "{\"client_id\":\"a\",\"login\":\"b\",\"scopes\":[],\"user_id\":\"c\"}";
    match handle_validation_response(200, body) {
        Err(ACheckError::DeserializeError(_)) => {}
        other => panic!("expected DeserializeError, got {:?}", other),
    }
}

#[test]
fn validation_rejects_mistyped_scope_element() {
    let body = "{\"client_id\":\"a\",\"login\":\"b\",\"scopes\":[\"x\",3],\
                \"user_id\":\"c\",\"expires_in\":1}";
    match handle_validation_response(200, body) {
        Err(ACheckError::DeserializeError(_)) => {}
        other => panic!("expected DeserializeError, got {:?}", other),
    }
}

#[test]
fn validation_rejects_lifetime_outside_signed_32_bits() {
    let body = "{\"client_id\":\"a\",\"login\":\"b\",\"scopes\":[],\
                \"user_id\":\"c\",\"expires_in\":4294967296}";
    match handle_validation_response(200, body) {
        Err(ACheckError::DeserializeError(_)) => {}
        other => panic!("expected DeserializeError, got {:?}", other),
    }
}

#[test]
fn revocation_ok_confirms_with_login() {
    let r = handle_revocation_response(200, "", "twitchdev");
    assert_eq!(
        r.unwrap(),
        "Token for user \"twitchdev\" has been revoked succesfully."
    );
}

#[test]
fn revocation_bad_request_refuses_token() {
    match handle_revocation_response(400, "", "twitchdev") {
        Err(ACheckError::InvalidToken(m)) => assert_eq!(m, "token is invalid"),
        other => panic!("expected InvalidToken, got {:?}", other),
    }
}

#[test]
fn revocation_not_found_carries_provider_message() {
    let body = "{\"status\":404,\"message\":\"missing oauth token\"}";
    match handle_revocation_response(404, body, "twitchdev") {
        Err(ACheckError::InvalidToken(m)) => assert_eq!(m, "missing oauth token"),
        other => panic!("expected InvalidToken, got {:?}", other),
    }
}

#[test]
fn revocation_not_found_with_broken_body_is_shape_error() {
    match handle_revocation_response(404, "{\"message\":7}", "twitchdev") {
        Err(ACheckError::DeserializeError(_)) => {}
        other => panic!("expected DeserializeError, got {:?}", other),
    }
}

#[test]
fn revocation_undocumented_code_is_reported() {
    match handle_revocation_response(503, "", "twitchdev") {
        Err(ACheckError::UnexpectedCode(503)) => {}
        other => panic!("expected UnexpectedCode(503), got {:?}", other),
    }
}

#[test]
fn provider_error_body_is_parsed_field_by_field() {
    let auth = provider_error_of_body("{\"status\":401,\"message\":\"invalid access token\"}")
        .expect("well-formed provider error must parse");
    assert_eq!(auth.status, 401);
    assert_eq!(auth.message, "invalid access token");
    assert_eq!(auth.message_string(), "invalid access token");
}

#[test]
fn provider_error_status_must_fit_sixteen_bits() {
    match provider_error_of_body("{\"status\":70000,\"message\":\"x\"}") {
        Err(ACheckError::DeserializeError(_)) => {}
        other => panic!("expected DeserializeError, got {:?}", other),
    }
}
