use cedar_agent::artifacts::CedarService;
use cedar_agent::dispatch::{
    authorize_reply, body_unreadable_reply, error_reply, health_reply, not_found_reply, route,
    status_of, FailureKind, Route,
};
use cedar_agent::request::{AuthzRequest, DecodeError};
use cedar_agent::response::{assemble, json_string_of, Decision};

fn service(policy: &str) -> CedarService {
    CedarService::new(Ok(policy.to_string()), None).ok().unwrap()
}

fn error_field(body: &str) -> String {
    let v: serde_json::Value = serde_json::from_str(body).unwrap();
    v["error"].as_str().unwrap().to_string()
}

#[test]
fn routes_are_matched_exactly() {
    assert_eq!(route("GET", "/health"), Route::Health);
    assert_eq!(route("POST", "/authorize"), Route::Authorize);
    assert_eq!(route("GET", "/unknown"), Route::NotFound);
    assert_eq!(route("PUT", "/authorize"), Route::NotFound);
    assert_eq!(route("POST", "/health"), Route::NotFound);
}

#[test]
fn health_is_always_ok() {
    let _empty = service("");
    let r = health_reply();
    assert_eq!(r.status, 200);
    assert!(r.json);
    assert_eq!(r.body, "{\"status\":\"healthy\"}");
}

#[test]
fn unknown_routes_are_not_found() {
    let r = not_found_reply();
    assert_eq!(r.status, 404);
    assert!(!r.json);
    assert_eq!(r.body, "Not found");
}

#[test]
fn status_codes_follow_failure_kind() {
    assert_eq!(status_of(FailureKind::Decode), 400);
    assert_eq!(status_of(FailureKind::Build), 400);
    assert_eq!(status_of(FailureKind::Internal), 500);
}

#[test]
fn error_messages_are_escaped() {
    let r = error_reply(FailureKind::Internal, "bad \"quote\"");
    assert_eq!(r.status, 500);
    assert_eq!(r.body, "{\"error\":\"bad \\\"quote\\\"\"}");
    assert_eq!(error_field(&r.body), "bad \"quote\"");
    assert_eq!(json_string_of("a\nb"), "\"a\\nb\"");
    assert_eq!(json_string_of("\u{1}/\\"), "\"\\u0001/\\\\\"");
}

#[test]
fn unreadable_body_is_bad_request() {
    let r = body_unreadable_reply("connection reset");
    assert_eq!(r.status, 400);
    assert_eq!(error_field(&r.body), "Failed to read body: connection reset");
}

#[test]
fn malformed_json_is_bad_request() {
    let s = service("permit(principal, action, resource);");
    let detail = serde_json::from_str::<serde_json::Value>("{ oops").unwrap_err().to_string();
    let r = authorize_reply(&s, Err(DecodeError::Malformed(detail)));
    assert_eq!(r.status, 400);
    assert!(error_field(&r.body).starts_with("Invalid request: "));
    assert!(error_field(&r.body).len() > "Invalid request: ".len());
}

#[test]
fn missing_entities_is_bad_request() {
    let s = service("permit(principal, action, resource);");
    let decoded = AuthzRequest::from_fields(
        Some("User::\"alice\"".to_string()),
        Some("Action::\"view\"".to_string()),
        Some("Doc::\"d\"".to_string()),
        None,
    );
    match &decoded {
        Err(e) => assert_eq!(e.message(), "missing field entities"),
        Ok(_) => panic!("expected a missing field"),
    }
    let r = authorize_reply(&s, decoded);
    assert_eq!(r.status, 400);
    assert_eq!(error_field(&r.body), "Invalid request: missing field entities");
}

#[test]
fn first_missing_field_is_reported() {
    match AuthzRequest::from_fields(None, None, Some("x".to_string()), None) {
        Err(e) => assert_eq!(e.message(), "missing field principal"),
        Ok(_) => panic!("expected a missing field"),
    }
}

#[test]
fn invalid_principal_is_bad_request() {
    let s = service("permit(principal, action, resource);");
    let req = AuthzRequest {
        principal: "alice".to_string(),
        action: "Action::\"view\"".to_string(),
        resource: "Doc::\"d\"".to_string(),
        entities: "[]".to_string(),
    };
    let r = authorize_reply(&s, Ok(req));
    assert_eq!(r.status, 400);
    assert!(error_field(&r.body).starts_with("Failed to parse principal: "));
}

#[test]
fn evaluation_errors_still_answer_ok() {
    let s = service("permit(principal, action, resource) when { principal.level > 3 };");
    let req = AuthzRequest {
        principal: "User::\"alice\"".to_string(),
        action: "Action::\"view\"".to_string(),
        resource: "Doc::\"d\"".to_string(),
        entities: "[]".to_string(),
    };
    let r = authorize_reply(&s, Ok(req));
    assert_eq!(r.status, 200);
    let v: serde_json::Value = serde_json::from_str(&r.body).unwrap();
    assert_eq!(v["decision"], "Deny");
    assert_eq!(v["diagnostics"]["errors"].as_array().unwrap().len(), 1);
}

#[test]
fn allowed_request_answers_ok() {
    let s = service("permit(principal, action, resource);");
    let req = AuthzRequest {
        principal: "User::\"alice\"".to_string(),
        action: "Action::\"view\"".to_string(),
        resource: "Doc::\"d\"".to_string(),
        entities: "[]".to_string(),
    };
    let r = authorize_reply(&s, Ok(req));
    assert_eq!(r.status, 200);
    assert!(r.json);
    assert_eq!(r.body, "{\"decision\":\"Allow\",\"diagnostics\":{\"reason\":[\"policy0\"],\"errors\":[]}}");
}

#[test]
fn response_round_trips_through_json() {
    let resp = assemble(Decision::Allow, vec!["p1".to_string()], vec![]);
    let text = resp.to_json();
    assert_eq!(text, "{\"decision\":\"Allow\",\"diagnostics\":{\"reason\":[\"p1\"],\"errors\":[]}}");
    let v: serde_json::Value = serde_json::from_str(&text).unwrap();
    assert_eq!(v["decision"], "Allow");
    let reason: Vec<String> = serde_json::from_value(v["diagnostics"]["reason"].clone()).unwrap();
    let errors: Vec<String> = serde_json::from_value(v["diagnostics"]["errors"].clone()).unwrap();
    assert_eq!(reason, vec!["p1".to_string()]);
    assert!(errors.is_empty());
}
