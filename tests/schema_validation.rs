use atomc_core::schema::{
    compile_schema, validate_schema, violations_result, SchemaKind, SchemaRegistry,
    SchemaValidationError,
};

fn json(text: &str) -> serde_json::Value {
    serde_json::from_str(text).unwrap()
}

fn base_commit_unit_text(summary: &str) -> String {
    format!(
        "{{\"id\": \"commit-1\", \"type\": \"feat\", \"scope\": \"cli\", \"summary\": \"{}\", \
         \"body\": [\"Emit JSON by default for automation\"], \"files\": [\"src/main.rs\"], \"hunks\": []}}",
        summary
    )
}

const SUMMARY: &str = "add deterministic JSON output for plan command results";

#[test]
fn commit_plan_schema_accepts_valid_payload() {
    let registry = SchemaRegistry::new();
    let payload = json(&format!(
        "{{\"schema_version\": \"v1\", \"plan\": [{}]}}",
        base_commit_unit_text(SUMMARY)
    ));

    let result = validate_schema(&registry, SchemaKind::CommitPlan, &payload);
    assert!(result.is_ok());
}

#[test]
fn commit_plan_schema_rejects_short_summary() {
    let registry = SchemaRegistry::new();
    let payload = json(&format!(
        "{{\"schema_version\": \"v1\", \"plan\": [{}]}}",
        base_commit_unit_text("too short")
    ));

    let result = validate_schema(&registry, SchemaKind::CommitPlan, &payload);
    assert!(result.is_err());
}

#[test]
fn commit_apply_schema_accepts_valid_payload() {
    let registry = SchemaRegistry::new();
    let payload = json(&format!(
        "{{\"schema_version\": \"v1\", \"plan\": [{}], \"results\": [{{\"id\": \"commit-1\", \"status\": \"planned\", \"error\": null}}]}}",
        base_commit_unit_text(SUMMARY)
    ));

    let result = validate_schema(&registry, SchemaKind::CommitApply, &payload);
    assert!(result.is_ok());
}

#[test]
fn commit_apply_schema_rejects_missing_results() {
    let registry = SchemaRegistry::new();
    let payload = json(&format!(
        "{{\"schema_version\": \"v1\", \"plan\": [{}]}}",
        base_commit_unit_text(SUMMARY)
    ));

    let result = validate_schema(&registry, SchemaKind::CommitApply, &payload);
    assert!(result.is_err());
}

#[test]
fn error_schema_accepts_valid_payload() {
    let registry = SchemaRegistry::new();
    let payload = json(
        "{\"schema_version\": \"v1\", \"error\": {\"code\": \"input_invalid\", \"message\": \"stdin is empty\", \"details\": {\"hint\": \"provide a diff\"}}}",
    );

    let result = validate_schema(&registry, SchemaKind::ErrorResponse, &payload);
    assert!(result.is_ok());
}

#[test]
fn error_schema_rejects_unknown_code() {
    let registry = SchemaRegistry::new();
    let payload = json(
        "{\"schema_version\": \"v1\", \"error\": {\"code\": \"unknown_error\", \"message\": \"bad\"}}",
    );

    let result = validate_schema(&registry, SchemaKind::ErrorResponse, &payload);
    assert!(result.is_err());
}

#[test]
fn every_violation_is_collected() {
    let registry = SchemaRegistry::new();
    let payload = json(
        "{\"schema_version\": \"v2\", \"plan\": [{\"id\": \"\", \"type\": \"nope\", \"summary\": \"x\", \"body\": [], \"files\": [], \"hunks\": []}]}",
    );
    match validate_schema(&registry, SchemaKind::CommitPlan, &payload) {
        Err(SchemaValidationError::SchemaViolation(messages)) => assert!(messages.len() >= 4),
        other => panic!("unexpected result {:?}", other),
    }
}

#[test]
fn documents_compile() {
    let registry = SchemaRegistry::new();
    assert!(registry.commit_plan.is_ok());
    assert!(registry.commit_apply.is_ok());
    assert!(registry.error_response.is_ok());
}

#[test]
fn malformed_documents_are_reported() {
    assert!(matches!(compile_schema("{not json"), Err(SchemaValidationError::SchemaParse(_))));
    assert!(matches!(
        compile_schema("{\"type\": 12}"),
        Err(SchemaValidationError::SchemaCompile(_))
    ));
}

#[test]
fn violations_become_an_error_only_when_present() {
    assert!(violations_result(Vec::new()).is_ok());
    match violations_result(vec!["a".to_string(), "b".to_string()]) {
        Err(SchemaValidationError::SchemaViolation(messages)) => assert_eq!(messages.len(), 2),
        other => panic!("unexpected result {:?}", other),
    }
}
