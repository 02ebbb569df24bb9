//! Building response records: input metadata, per-unit results, warnings,
//! error codes, and the checks on a supplied diff.
use vstd::prelude::*;
use vstd::utf8::encode_utf8;
use crate::hash::{diff_hash, fingerprint_of};
use crate::semantic::SemanticWarning;
use crate::types::{ApplyResult, ApplyStatus, CommitUnit, DiffMode, InputMeta, InputSource, Warning};

verus! {

/// Machine-readable error category of a response.
#[derive(Debug, Clone, Copy, PartialEq, Eq, Structural)]
pub enum ErrorCode {
    UsageError,
    InputInvalid,
    ConfigError,
    LlmRuntimeError,
    LlmParseError,
    Timeout,
    GitError,
}

pub open spec fn code_label(c: ErrorCode) -> Seq<char> {
    match c {
        ErrorCode::UsageError => "usage_error"@,
        ErrorCode::InputInvalid => "input_invalid"@,
        ErrorCode::ConfigError => "config_error"@,
        ErrorCode::LlmRuntimeError => "llm_runtime_error"@,
        ErrorCode::LlmParseError => "llm_parse_error"@,
        ErrorCode::Timeout => "timeout"@,
        ErrorCode::GitError => "git_error"@,
    }
}

pub open spec fn code_exit_status(c: ErrorCode) -> u8 {
    match c {
        ErrorCode::UsageError => 2,
        ErrorCode::InputInvalid => 3,
        ErrorCode::ConfigError => 7,
        ErrorCode::LlmRuntimeError => 4,
        ErrorCode::LlmParseError => 5,
        ErrorCode::Timeout => 4,
        ErrorCode::GitError => 6,
    }
}

impl ErrorCode {
    /// The wire name of the code.
    pub fn as_str(self) -> (r: &'static str)
        ensures
            r@ == code_label(self),
    {
        match self {
            ErrorCode::UsageError => "usage_error",
            ErrorCode::InputInvalid => "input_invalid",
            ErrorCode::ConfigError => "config_error",
            ErrorCode::LlmRuntimeError => "llm_runtime_error",
            ErrorCode::LlmParseError => "llm_parse_error",
            ErrorCode::Timeout => "timeout",
            ErrorCode::GitError => "git_error",
        }
    }

    /// The process exit status for the code.
    pub fn exit_code(self) -> (r: u8)
        ensures
            r == code_exit_status(self),
    {
        match self {
            ErrorCode::UsageError => 2,
            ErrorCode::InputInvalid => 3,
            ErrorCode::ConfigError => 7,
            ErrorCode::LlmRuntimeError => 4,
            ErrorCode::LlmParseError => 5,
            ErrorCode::Timeout => 4,
            ErrorCode::GitError => 6,
        }
    }
}

pub open spec fn status_label(s: ApplyStatus) -> Seq<char> {
    match s {
        ApplyStatus::Planned => "planned"@,
        ApplyStatus::Applied => "applied"@,
        ApplyStatus::Skipped => "skipped"@,
        ApplyStatus::Failed => "failed"@,
    }
}

/// The wire name of a status.
pub fn apply_status_str(status: ApplyStatus) -> (r: &'static str)
    ensures
        r@ == status_label(status),
{
    match status {
        ApplyStatus::Planned => "planned",
        ApplyStatus::Applied => "applied",
        ApplyStatus::Skipped => "skipped",
        ApplyStatus::Failed => "failed",
    }
}

/// The diff mode worth reporting: only a repository-derived diff has one.
pub fn input_diff_mode(source: InputSource, mode: DiffMode) -> (r: Option<DiffMode>)
    ensures
        r == (if source == InputSource::Repo {
            Some(mode)
        } else {
            None::<DiffMode>
        }),
{
    match source {
        InputSource::Repo => Some(mode),
        InputSource::Diff => None,
    }
}

/// The untracked setting worth reporting: only a repository-derived diff has one.
pub fn input_include_untracked(source: InputSource, include_untracked: bool) -> (r: Option<bool>)
    ensures
        r == (if source == InputSource::Repo {
            Some(include_untracked)
        } else {
            None::<bool>
        }),
{
    match source {
        InputSource::Repo => Some(include_untracked),
        InputSource::Diff => None,
    }
}

/// Metadata describing the diff behind a plan, with its fingerprint.
pub fn build_input_meta(source: InputSource, diff_mode: DiffMode, include_untracked: bool, diff: &str) -> (r:
    InputMeta)
    ensures
        r.source == source,
        r.diff_mode == (if source == InputSource::Repo {
            Some(diff_mode)
        } else {
            None::<DiffMode>
        }),
        r.include_untracked == (if source == InputSource::Repo {
            Some(include_untracked)
        } else {
            None::<bool>
        }),
        r.diff_hash matches Some(h) && h@ == fingerprint_of(diff@),
{
    InputMeta {
        source,
        diff_mode: input_diff_mode(source, diff_mode),
        include_untracked: input_include_untracked(source, include_untracked),
        diff_hash: Some(diff_hash(diff)),
    }
}

/// One `Planned` result per unit, in plan order.
pub fn planned_results(plan: &Vec<CommitUnit>) -> (r: Vec<ApplyResult>)
    ensures
        r@.len() == plan@.len(),
        forall|i: int|
            0 <= i < r@.len() ==> (#[trigger] r@[i]).id == plan@[i].id && r@[i].status
                == ApplyStatus::Planned && r@[i].commit_hash is None && r@[i].error is None,
{
    let mut out: Vec<ApplyResult> = Vec::new();
    let mut i: usize = 0;
    while i < plan.len()
        invariant
            i <= plan@.len(),
            out@.len() == i,
            forall|j: int|
                0 <= j < i ==> (#[trigger] out@[j]).id == plan@[j].id && out@[j].status
                    == ApplyStatus::Planned && out@[j].commit_hash is None && out@[j].error is None,
        decreases plan@.len() - i,
    {
        out.push(
            ApplyResult {
                id: plan[i].id.clone(),
                status: ApplyStatus::Planned,
                commit_hash: None,
                error: None,
            },
        );
        i = i + 1;
    }
    out
}

/// `r` is the record of `w`.
pub open spec fn warning_record_of(w: SemanticWarning, r: Warning) -> bool {
    match w {
        SemanticWarning::ScopeMissing { id } => r.code@ == "scope_missing"@ && r.message@
            == "commit "@ + id@ + " scope is missing"@ && r.details is None,
    }
}

/// The warning record for a semantic warning.
pub fn semantic_warning_record(warning: &SemanticWarning) -> (r: Warning)
    ensures
        warning_record_of(*warning, r),
{
    match warning {
        SemanticWarning::ScopeMissing { id } => {
            let mut message = String::from_str("commit ");
            message.append(id.as_str());
            message.append(" scope is missing");
            Warning { code: String::from_str("scope_missing"), message, details: None }
        },
    }
}

/// The warning records for semantic warnings, in order.
pub fn semantic_warnings_to_warnings(warnings: &Vec<SemanticWarning>) -> (r: Vec<Warning>)
    ensures
        r@.len() == warnings@.len(),
        forall|i: int| 0 <= i < r@.len() ==> warning_record_of(#[trigger] warnings@[i], r@[i]),
{
    let mut out: Vec<Warning> = Vec::new();
    let mut i: usize = 0;
    while i < warnings.len()
        invariant
            i <= warnings@.len(),
            out@.len() == i,
            forall|j: int| 0 <= j < i ==> warning_record_of(#[trigger] warnings@[j], out@[j]),
        decreases warnings@.len() - i,
    {
        out.push(semantic_warning_record(&warnings[i]));
        i = i + 1;
    }
    out
}

/// The plan's own warnings followed by the new ones; nothing when both are empty.
pub fn merge_warnings(existing: Option<Vec<Warning>>, new: Vec<Warning>) -> (r: Option<
    Vec<Warning>,
>)
    ensures
        ({
            let all = match existing {
                Some(w) => w@,
                None => Seq::empty(),
            } + new@;
            if all.len() == 0 {
                r is None
            } else {
                r matches Some(w) && w@ == all
            }
        }),
{
    let mut combined = match existing {
        Some(w) => w,
        None => Vec::new(),
    };
    let mut new = new;
    combined.append(&mut new);
    if combined.len() == 0 {
        None
    } else {
        Some(combined)
    }
}

/// Why a supplied diff cannot be used.
#[derive(Debug, Clone, Copy, PartialEq, Eq, Structural)]
pub enum DiffInputError {
    /// Neither a diff nor a repository was given.
    Missing,
    /// The diff is empty.
    Empty,
    /// The diff has more bytes than allowed.
    TooLarge { max_diff_bytes: u64 },
}

/// A plan needs a diff or a repository to compute one from; a given diff
/// must be non-empty and within the byte limit.
pub fn validate_diff_requirements(diff: &Option<String>, has_repo: bool, max_diff_bytes: u64) -> (r:
    Result<(), DiffInputError>)
    ensures
        diff is None && !has_repo ==> r == Err::<(), DiffInputError>(DiffInputError::Missing),
        diff matches Some(d) && d@.len() == 0 ==> r == Err::<(), DiffInputError>(
            DiffInputError::Empty,
        ),
        diff matches Some(d) && d@.len() > 0 && encode_utf8(d@).len() > max_diff_bytes
            ==> r == Err::<(), DiffInputError>(DiffInputError::TooLarge { max_diff_bytes }),
        diff matches Some(d) && d@.len() > 0 && encode_utf8(d@).len() <= max_diff_bytes
            ==> r is Ok,
        diff is None && has_repo ==> r is Ok,
{
    match diff {
        None => if has_repo {
            Ok(())
        } else {
            Err(DiffInputError::Missing)
        },
        Some(d) => {
            if d.as_str().is_empty() {
                return Err(DiffInputError::Empty);
            }
            let bytes = d.as_str().as_bytes().len();
            if bytes as u64 > max_diff_bytes {
                Err(DiffInputError::TooLarge { max_diff_bytes })
            } else {
                Ok(())
            }
        },
    }
}

} // verus!
