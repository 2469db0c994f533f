use cedar_agent::artifacts::CedarService;
use cedar_agent::context::{BuildError, BuildStage};
use cedar_agent::request::AuthzRequest;

const POLICY: &str = "permit(principal == User::\"alice\", action == Action::\"view\", resource);";

const SCHEMA: &str = r#"{"": {"entityTypes": {"User": {}, "Doc": {}}, "actions": {"view": {"appliesTo": {"principalTypes": ["User"], "resourceTypes": ["Doc"]}}}}}"#;

fn service(policy: &str, schema: Option<&str>) -> CedarService {
    CedarService::new(Ok(policy.to_string()), schema.map(|s| s.to_string())).ok().unwrap()
}

fn request(principal: &str, action: &str, resource: &str, entities: &str) -> AuthzRequest {
    AuthzRequest {
        principal: principal.to_string(),
        action: action.to_string(),
        resource: resource.to_string(),
        entities: entities.to_string(),
    }
}

fn failure(r: Result<cedar_agent::response::AuthzResponse, BuildError>) -> BuildError {
    match r {
        Err(e) => e,
        Ok(_) => panic!("expected a build failure"),
    }
}

#[test]
fn matching_request_is_allowed() {
    let s = service(POLICY, None);
    let resp = s
        .authorize(request("User::\"alice\"", "Action::\"view\"", "Doc::\"d\"", "[]"))
        .ok()
        .unwrap();
    assert_eq!(resp.decision, "Allow");
    assert_eq!(resp.diagnostics.reason, vec!["policy0".to_string()]);
    assert!(resp.diagnostics.errors.is_empty());
}

#[test]
fn other_principal_is_denied() {
    let s = service(POLICY, None);
    let resp = s
        .authorize(request("User::\"bob\"", "Action::\"view\"", "Doc::\"d\"", "[]"))
        .ok()
        .unwrap();
    assert_eq!(resp.decision, "Deny");
    assert!(resp.diagnostics.reason.is_empty());
}

#[test]
fn schema_mode_allows_valid_request() {
    let s = service(POLICY, Some(SCHEMA));
    let resp = s
        .authorize(request("User::\"alice\"", "Action::\"view\"", "Doc::\"d\"", "[]"))
        .ok()
        .unwrap();
    assert_eq!(resp.decision, "Allow");
}

#[test]
fn schema_mode_rejects_request_of_wrong_types() {
    let s = service(POLICY, Some(SCHEMA));
    let e = failure(s.authorize(request("Doc::\"x\"", "Action::\"view\"", "User::\"alice\"", "[]")));
    assert_eq!(e.stage(), BuildStage::Request);
    assert!(e.message().starts_with("Failed to create request: "));
}

#[test]
fn invalid_entities_are_reported() {
    let s = service(POLICY, None);
    let e = failure(s.authorize(request("User::\"alice\"", "Action::\"view\"", "Doc::\"d\"", "{ nope")));
    assert_eq!(e.stage(), BuildStage::Entities);
    assert!(e.message().starts_with("Failed to parse entities: "));
}

#[test]
fn invalid_principal_is_reported_as_principal() {
    let s = service(POLICY, None);
    let e = failure(s.authorize(request("not an id", "also bad", "bad too", "[]")));
    assert_eq!(e.stage(), BuildStage::Principal);
    assert!(matches!(e, BuildError::PrincipalInvalid(_)));
    assert!(e.message().starts_with("Failed to parse principal: "));
}

#[test]
fn invalid_action_is_reported_as_action() {
    let s = service(POLICY, None);
    let e = failure(s.authorize(request("User::\"alice\"", "view", "bad too", "[]")));
    assert_eq!(e.stage(), BuildStage::Action);
    assert!(e.message().starts_with("Failed to parse action: "));
}

#[test]
fn invalid_resource_is_reported_as_resource() {
    let s = service(POLICY, None);
    let e = failure(s.authorize(request("User::\"alice\"", "Action::\"view\"", "Doc", "[]")));
    assert_eq!(e.stage(), BuildStage::Resource);
    assert!(e.message().starts_with("Failed to parse resource: "));
}

#[test]
fn identical_requests_get_identical_answers() {
    let policy = "permit(principal, action, resource);\nforbid(principal == User::\"eve\", action, resource);";
    let s1 = service(policy, None);
    let s2 = service(policy, None);
    for p in ["User::\"alice\"", "User::\"eve\""] {
        let a = s1.authorize(request(p, "Action::\"view\"", "Doc::\"d\"", "[]")).ok().unwrap();
        let b = s2.authorize(request(p, "Action::\"view\"", "Doc::\"d\"", "[]")).ok().unwrap();
        assert_eq!(a.decision, b.decision);
        let mut ra = a.diagnostics.reason.clone();
        let mut rb = b.diagnostics.reason.clone();
        ra.sort();
        rb.sort();
        assert_eq!(ra, rb);
        assert_eq!(a.diagnostics.errors, b.diagnostics.errors);
    }
}

#[test]
fn evaluation_errors_keep_the_decision() {
    let policy = "permit(principal, action, resource);\npermit(principal, action, resource) when { principal.level > 3 };";
    let s = service(policy, None);
    let resp = s
        .authorize(request("User::\"alice\"", "Action::\"view\"", "Doc::\"d\"", "[]"))
        .ok()
        .unwrap();
    assert_eq!(resp.decision, "Allow");
    assert_eq!(resp.diagnostics.reason, vec!["policy0".to_string()]);
    assert_eq!(resp.diagnostics.errors.len(), 1);
}
