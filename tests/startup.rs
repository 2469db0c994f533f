use cedar_agent::artifacts::{CedarService, StartupError};

const POLICY: &str = "permit(principal == User::\"alice\", action == Action::\"view\", resource);";

const SCHEMA: &str = r#"{"": {"entityTypes": {"User": {}, "Doc": {}}, "actions": {"view": {"appliesTo": {"principalTypes": ["User"], "resourceTypes": ["Doc"]}}}}}"#;

#[test]
fn startup_without_schema_succeeds() {
    let service = CedarService::new(Ok(POLICY.to_string()), None).ok().unwrap();
    assert!(!service.has_schema());
}

#[test]
fn startup_with_valid_schema_succeeds() {
    let service = CedarService::new(Ok(POLICY.to_string()), Some(SCHEMA.to_string())).ok().unwrap();
    assert!(service.has_schema());
}

#[test]
fn startup_with_zero_policies_succeeds() {
    assert!(CedarService::new(Ok(String::new()), None).is_ok());
}

#[test]
fn startup_unreadable_policy_fails() {
    match CedarService::new(Err("no such file".to_string()), None) {
        Err(StartupError::PolicyUnreadable(m)) => {
            assert_eq!(m, "Failed to read policy file: no such file")
        }
        _ => panic!("expected an unreadable policy"),
    }
}

#[test]
fn startup_invalid_policy_fails() {
    match CedarService::new(Ok("permit(principal".to_string()), Some(SCHEMA.to_string())) {
        Err(e @ StartupError::PolicyInvalid(_)) => {
            assert!(e.message().starts_with("Failed to parse policies: "))
        }
        _ => panic!("expected an invalid policy"),
    }
}

#[test]
fn startup_invalid_schema_fails() {
    match CedarService::new(Ok(POLICY.to_string()), Some("{ not json".to_string())) {
        Err(e @ StartupError::SchemaInvalid(_)) => {
            assert!(e.message().starts_with("Failed to parse schema: "))
        }
        _ => panic!("expected an invalid schema"),
    }
}
