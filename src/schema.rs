//! Structural validation of wire payloads against the versioned JSON Schema
//! documents, each compiled once into a registry.
use vstd::prelude::*;

verus! {

/// A compiled JSON Schema document. Verus refuses a declaration of
/// `jsonschema::Validator` (its parameter is bound by the crate's `Json`
/// trait), so the validator is held here, out of Verus's sight.
#[verifier::external_body]
pub struct CompiledSchema {
    validator: jsonschema::Validator,
}

/// Which payload a document describes.
#[derive(Debug, Clone, Copy, PartialEq, Eq, Structural)]
pub enum SchemaKind {
    CommitPlan,
    CommitApply,
    ErrorResponse,
}

/// Why a schema could not be used, or why a payload does not conform.
#[derive(Debug, Clone)]
pub enum SchemaValidationError {
    /// The schema document is not JSON.
    SchemaParse(String),
    /// The schema document is not a valid Draft 2020-12 schema.
    SchemaCompile(String),
    /// Every violation found in the payload, as messages.
    SchemaViolation(Vec<String>),
}

/// The JSON document a text denotes, if it is JSON.
pub uninterp spec fn json_document(text: Seq<char>) -> Option<serde_json::Value>;

/// Whether a document is a valid Draft 2020-12 schema.
pub uninterp spec fn schema_compiles(document: serde_json::Value) -> bool;

/// Whether a compiled schema accepts an instance.
pub uninterp spec fn schema_accepts(schema: CompiledSchema, instance: serde_json::Value) -> bool;

/// Relies on `serde_json::from_str`: parses a JSON document, or gives the
/// parser's message; the outcome depends on the text alone.
#[verifier::external_body]
fn parse_json(text: &str) -> (r: Result<serde_json::Value, String>)
    ensures
        match r {
            Ok(v) => json_document(text@) == Some(v),
            Err(_) => json_document(text@) is None,
        },
{
    serde_json::from_str(text).map_err(|e: serde_json::Error| e.to_string())
}

/// Relies on `jsonschema::draft202012::new`: compiles a Draft 2020-12
/// schema, or gives the compiler's message; it fails exactly when the
/// document is not a valid schema.
#[verifier::external_body]
fn compile_validator(schema: &serde_json::Value) -> (r: Result<CompiledSchema, String>)
    ensures
        r is Ok <==> schema_compiles(*schema),
{
    jsonschema::draft202012::new(schema).map(|validator| CompiledSchema { validator }).map_err(
        |e| e.to_string(),
    )
}

/// Relies on `jsonschema::Validator::iter_errors`: every violation of the
/// instance, rendered as a message; there are none exactly when the
/// instance is valid.
#[verifier::external_body]
fn violation_messages(schema: &CompiledSchema, instance: &serde_json::Value) -> (r: Vec<String>)
    ensures
        r@.len() == 0 <==> schema_accepts(*schema, *instance),
{
    schema.validator.iter_errors(instance).map(|e| e.to_string()).collect()
}

/// Success when no violation was found, else all of them.
pub fn violations_result(messages: Vec<String>) -> (r: Result<(), SchemaValidationError>)
    ensures
        messages@.len() == 0 ==> r is Ok,
        messages@.len() > 0 ==> r == Err::<(), SchemaValidationError>(
            SchemaValidationError::SchemaViolation(messages),
        ),
{
    if messages.len() == 0 {
        Ok(())
    } else {
        Err(SchemaValidationError::SchemaViolation(messages))
    }
}

/// The text is JSON and denotes a valid schema.
pub open spec fn document_usable(text: Seq<char>) -> bool {
    match json_document(text) {
        Some(d) => schema_compiles(d),
        None => false,
    }
}

/// The error kind a schema text compiles with: `SchemaParse` when it is not
/// JSON, `SchemaCompile` when it is JSON but not a valid schema.
pub open spec fn compiled_as(text: Seq<char>, r: Result<CompiledSchema, SchemaValidationError>) -> bool {
    &&& r is Ok <==> document_usable(text)
    &&& json_document(text) is None ==> (r matches Err(e) && e is SchemaParse)
    &&& (json_document(text) matches Some(d) && !schema_compiles(d)) ==> (r matches Err(e)
        && e is SchemaCompile)
}

/// Parse and compile one schema document.
pub fn compile_schema(text: &str) -> (r: Result<CompiledSchema, SchemaValidationError>)
    ensures
        compiled_as(text@, r),
{
    match parse_json(text) {
        Err(message) => Err(SchemaValidationError::SchemaParse(message)),
        Ok(document) => match compile_validator(&document) {
            Err(message) => Err(SchemaValidationError::SchemaCompile(message)),
            Ok(validator) => Ok(validator),
        },
    }
}

/// The two errors say the same thing.
pub open spec fn same_schema_error(a: SchemaValidationError, b: SchemaValidationError) -> bool {
    match (a, b) {
        (SchemaValidationError::SchemaParse(x), SchemaValidationError::SchemaParse(y)) => x == y,
        (SchemaValidationError::SchemaCompile(x), SchemaValidationError::SchemaCompile(y)) => x == y,
        (SchemaValidationError::SchemaViolation(x), SchemaValidationError::SchemaViolation(y)) => x@
            == y@,
        _ => false,
    }
}

/// A copy of a schema error.
pub fn copy_schema_error(e: &SchemaValidationError) -> (r: SchemaValidationError)
    ensures
        same_schema_error(*e, r),
{
    match e {
        SchemaValidationError::SchemaParse(m) => SchemaValidationError::SchemaParse(m.clone()),
        SchemaValidationError::SchemaCompile(m) => SchemaValidationError::SchemaCompile(m.clone()),
        SchemaValidationError::SchemaViolation(ms) => SchemaValidationError::SchemaViolation(
            crate::git::copy_strings(ms),
        ),
    }
}

/// The compiled document of each payload kind, built once and reused.
pub struct SchemaRegistry {
    pub commit_plan: Result<CompiledSchema, SchemaValidationError>,
    pub commit_apply: Result<CompiledSchema, SchemaValidationError>,
    pub error_response: Result<CompiledSchema, SchemaValidationError>,
}

impl SchemaRegistry {
    /// The compiled document for `kind`, or why it failed to compile.
    pub open spec fn entry(&self, kind: SchemaKind) -> Result<
        CompiledSchema,
        SchemaValidationError,
    > {
        match kind {
            SchemaKind::CommitPlan => self.commit_plan,
            SchemaKind::CommitApply => self.commit_apply,
            SchemaKind::ErrorResponse => self.error_response,
        }
    }

    /// Compile every document once.
    pub fn new() -> (r: SchemaRegistry)
        ensures
            forall|k: SchemaKind| compiled_as(schema_text(k), #[trigger] r.entry(k)),
    {
        SchemaRegistry {
            commit_plan: compile_schema(schema_document(SchemaKind::CommitPlan)),
            commit_apply: compile_schema(schema_document(SchemaKind::CommitApply)),
            error_response: compile_schema(schema_document(SchemaKind::ErrorResponse)),
        }
    }

    fn validator(&self, kind: SchemaKind) -> (r: &Result<CompiledSchema, SchemaValidationError>)
        ensures
            *r == self.entry(kind),
    {
        match kind {
            SchemaKind::CommitPlan => &self.commit_plan,
            SchemaKind::CommitApply => &self.commit_apply,
            SchemaKind::ErrorResponse => &self.error_response,
        }
    }
}

/// Check `instance` against the document for `kind`, collecting every
/// violation. A document that failed to compile makes every check fail with
/// that error.
pub fn validate_schema(registry: &SchemaRegistry, kind: SchemaKind, instance: &serde_json::Value) -> (r:
    Result<(), SchemaValidationError>)
    ensures
        registry.entry(kind) matches Err(e) ==> (r matches Err(f) && same_schema_error(e, f)),
        registry.entry(kind) matches Ok(s) ==> (r is Ok <==> schema_accepts(s, *instance)),
        registry.entry(kind) is Ok ==> (r is Ok || (r matches Err(
            SchemaValidationError::SchemaViolation(ms),
        ) && ms@.len() > 0)),
{
    match registry.validator(kind) {
        Err(e) => Err(copy_schema_error(e)),
        Ok(validator) => violations_result(violation_messages(validator, instance)),
    }
}

/// The text of the schema document for `kind`.
pub open spec fn schema_text(kind: SchemaKind) -> Seq<char> {
    match kind {
        SchemaKind::CommitPlan => COMMIT_PLAN_SCHEMA@,
        SchemaKind::CommitApply => COMMIT_APPLY_SCHEMA@,
        SchemaKind::ErrorResponse => ERROR_SCHEMA@,
    }
}

/// The schema document for `kind`.
pub fn schema_document(kind: SchemaKind) -> (r: &'static str)
    ensures
        r@ == schema_text(kind),
{
    match kind {
        SchemaKind::CommitPlan => COMMIT_PLAN_SCHEMA,
        SchemaKind::CommitApply => COMMIT_APPLY_SCHEMA,
        SchemaKind::ErrorResponse => ERROR_SCHEMA,
    }
}

pub const COMMIT_PLAN_SCHEMA: &'static str = r##"{
  "$schema": "https://json-schema.org/draft/2020-12/schema",
  "$id": "https://atomc.dev/schema/v1/commit-plan.json",
  "title": "CommitPlan",
  "type": "object",
  "required": ["schema_version", "plan"],
  "properties": {
    "schema_version": { "const": "v1" },
    "request_id": { "type": ["string", "null"] },
    "warnings": { "type": ["array", "null"], "items": { "$ref": "#/$defs/warning" } },
    "input": { "anyOf": [{ "$ref": "#/$defs/input" }, { "type": "null" }] },
    "plan": { "type": "array", "minItems": 1, "items": { "$ref": "#/$defs/commit_unit" } }
  },
  "$defs": {
    "commit_unit": {
      "type": "object",
      "required": ["id", "type", "summary", "body", "files", "hunks"],
      "properties": {
        "id": { "type": "string", "minLength": 1 },
        "type": { "enum": ["feat", "fix", "refactor", "style", "docs", "test", "chore", "build", "perf", "ci"] },
        "scope": { "type": ["string", "null"] },
        "summary": { "type": "string", "minLength": 50, "maxLength": 72 },
        "body": { "type": "array", "minItems": 1, "maxItems": 3, "items": { "type": "string", "minLength": 1 } },
        "files": { "type": "array", "items": { "type": "string", "minLength": 1 } },
        "hunks": { "type": "array", "items": { "$ref": "#/$defs/hunk" } }
      }
    },
    "hunk": {
      "type": "object",
      "required": ["file", "header"],
      "properties": {
        "file": { "type": "string" },
        "header": { "type": "string" },
        "id": { "type": ["string", "null"] }
      }
    },
    "warning": {
      "type": "object",
      "required": ["code", "message"],
      "properties": { "code": { "type": "string" }, "message": { "type": "string" } }
    },
    "input": {
      "type": "object",
      "required": ["source"],
      "properties": {
        "source": { "enum": ["repo", "diff"] },
        "diff_mode": { "enum": ["worktree", "staged", "all", null] },
        "include_untracked": { "type": ["boolean", "null"] },
        "diff_hash": { "type": ["string", "null"] }
      }
    }
  }
}"##;

pub const COMMIT_APPLY_SCHEMA: &'static str = r##"{
  "$schema": "https://json-schema.org/draft/2020-12/schema",
  "$id": "https://atomc.dev/schema/v1/commit-apply.json",
  "title": "CommitApplyResponse",
  "type": "object",
  "required": ["schema_version", "plan", "results"],
  "properties": {
    "schema_version": { "const": "v1" },
    "request_id": { "type": ["string", "null"] },
    "warnings": { "type": ["array", "null"], "items": { "$ref": "#/$defs/warning" } },
    "input": { "anyOf": [{ "$ref": "#/$defs/input" }, { "type": "null" }] },
    "plan": { "type": "array", "items": { "$ref": "#/$defs/commit_unit" } },
    "results": { "type": "array", "items": { "$ref": "#/$defs/result" } }
  },
  "$defs": {
    "commit_unit": {
      "type": "object",
      "required": ["id", "type", "summary", "body", "files", "hunks"],
      "properties": {
        "id": { "type": "string", "minLength": 1 },
        "type": { "enum": ["feat", "fix", "refactor", "style", "docs", "test", "chore", "build", "perf", "ci"] },
        "scope": { "type": ["string", "null"] },
        "summary": { "type": "string", "minLength": 50, "maxLength": 72 },
        "body": { "type": "array", "minItems": 1, "maxItems": 3, "items": { "type": "string", "minLength": 1 } },
        "files": { "type": "array", "items": { "type": "string", "minLength": 1 } },
        "hunks": { "type": "array" }
      }
    },
    "result": {
      "type": "object",
      "required": ["id", "status"],
      "properties": {
        "id": { "type": "string" },
        "status": { "enum": ["planned", "applied", "skipped", "failed"] },
        "commit_hash": { "type": ["string", "null"] },
        "error": { "anyOf": [{ "$ref": "#/$defs/error_detail" }, { "type": "null" }] }
      }
    },
    "error_detail": {
      "type": "object",
      "required": ["code", "message"],
      "properties": { "code": { "type": "string" }, "message": { "type": "string" } }
    },
    "warning": {
      "type": "object",
      "required": ["code", "message"],
      "properties": { "code": { "type": "string" }, "message": { "type": "string" } }
    },
    "input": {
      "type": "object",
      "required": ["source"],
      "properties": {
        "source": { "enum": ["repo", "diff"] },
        "diff_mode": { "enum": ["worktree", "staged", "all", null] },
        "include_untracked": { "type": ["boolean", "null"] },
        "diff_hash": { "type": ["string", "null"] }
      }
    }
  }
}"##;

pub const ERROR_SCHEMA: &'static str = r##"{
  "$schema": "https://json-schema.org/draft/2020-12/schema",
  "$id": "https://atomc.dev/schema/v1/error.json",
  "title": "ErrorResponse",
  "type": "object",
  "required": ["schema_version", "error"],
  "properties": {
    "schema_version": { "const": "v1" },
    "request_id": { "type": ["string", "null"] },
    "error": {
      "type": "object",
      "required": ["code", "message"],
      "properties": {
        "code": {
          "enum": ["usage_error", "input_invalid", "config_error", "llm_runtime_error", "llm_parse_error", "timeout", "git_error"]
        },
        "message": { "type": "string" }
      }
    }
  }
}"##;

} // verus!
