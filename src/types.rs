//! Plan, unit and result records exchanged with callers.
use vstd::prelude::*;

verus! {

/// An arbitrary JSON document carried through without being inspected.
#[verifier::external_type_specification]
#[verifier::external_body]
pub struct ExJsonValue(serde_json::Value);

/// Where a diff snapshot came from.
#[derive(Debug, Clone, Copy, PartialEq, Eq, Structural)]
pub enum InputSource {
    /// Computed live from a repository; re-verified before every apply step.
    Repo,
    /// Supplied by the caller as text.
    Diff,
}

/// Which pending changes a diff covers.
#[derive(Debug, Clone, Copy, PartialEq, Eq, Structural)]
pub enum DiffMode {
    /// Working tree against the index.
    Worktree,
    /// Index against HEAD.
    Staged,
    /// Working tree part followed by the index part.
    All,
}

/// Conventional commit type of a unit.
#[derive(Debug, Clone, Copy, PartialEq, Eq, Structural)]
pub enum CommitType {
    Feat,
    Fix,
    Refactor,
    Style,
    Docs,
    Test,
    Chore,
    Build,
    Perf,
    Ci,
}

/// A hunk reference inside a unit; reserved, must be absent at apply time.
#[derive(Debug, Clone)]
pub struct Hunk {
    pub file: String,
    pub header: String,
    pub id: Option<String>,
}

/// One planned atomic commit.
#[derive(Debug, Clone)]
pub struct CommitUnit {
    pub id: String,
    pub type_: CommitType,
    pub scope: Option<String>,
    pub summary: String,
    pub body: Vec<String>,
    pub files: Vec<String>,
    pub hunks: Vec<Hunk>,
}

/// Outcome status of one unit.
#[derive(Debug, Clone, Copy, PartialEq, Eq, Structural)]
pub enum ApplyStatus {
    Planned,
    Applied,
    Skipped,
    Failed,
}

/// Machine-readable error payload.
#[derive(Debug, Clone)]
pub struct ErrorDetail {
    pub code: String,
    pub message: String,
    pub details: Option<serde_json::Value>,
}

/// Result recorded for one unit.
#[derive(Debug, Clone)]
pub struct ApplyResult {
    pub id: String,
    pub status: ApplyStatus,
    pub commit_hash: Option<String>,
    pub error: Option<ErrorDetail>,
}

/// A non-fatal note attached to a plan.
#[derive(Debug, Clone)]
pub struct Warning {
    pub code: String,
    pub message: String,
    pub details: Option<serde_json::Value>,
}

/// How the diff behind a plan was obtained, and its fingerprint.
#[derive(Debug, Clone)]
pub struct InputMeta {
    pub source: InputSource,
    pub diff_mode: Option<DiffMode>,
    pub include_untracked: Option<bool>,
    pub diff_hash: Option<String>,
}

/// An ordered list of proposed commits with its metadata.
#[derive(Debug, Clone)]
pub struct CommitPlan {
    pub schema_version: String,
    pub request_id: Option<String>,
    pub warnings: Option<Vec<Warning>>,
    pub input: Option<InputMeta>,
    pub plan: Vec<CommitUnit>,
}

/// A plan together with the result of each unit.
#[derive(Debug, Clone)]
pub struct CommitApplyResponse {
    pub schema_version: String,
    pub request_id: Option<String>,
    pub warnings: Option<Vec<Warning>>,
    pub input: Option<InputMeta>,
    pub plan: Vec<CommitUnit>,
    pub results: Vec<ApplyResult>,
}

/// Wire payload for a failed request.
#[derive(Debug, Clone)]
pub struct ErrorResponse {
    pub schema_version: String,
    pub request_id: Option<String>,
    pub error: ErrorDetail,
}

} // verus!
