//! Prompt construction for the plan-generating model.
use vstd::prelude::*;
use crate::types::DiffMode;

verus! {

/// Why a plan could not be obtained from the model.
#[derive(Debug, Clone)]
pub enum LlmError {
    Runtime(String),
    Parse(String),
    Timeout,
    UnsupportedRuntime(String),
}

/// The two messages sent to the model.
#[derive(Debug, Clone)]
pub struct Prompt {
    pub system: String,
    pub user: String,
}

/// What the user message describes.
#[derive(Debug, Clone)]
pub struct PromptContext {
    /// The repository path as displayed.
    pub repo_path: Option<String>,
    pub diff_mode: Option<DiffMode>,
    pub include_untracked: Option<bool>,
    pub git_status: Option<String>,
    pub diff: String,
}

pub const SYSTEM_PROMPT: &'static str = "You are a local commit planning assistant.
Return a single JSON object that matches the CommitPlan schema.
Do not include Markdown, comments, or any extra text.
Follow atomic commit rules:
- Each commit must do exactly one thing.
- Split unrelated concerns into separate commits.
- Foundations first, integrations last.
- Avoid bundling refactors with feature changes.
Commit message rules:
- Use conventional commits: type[scope]: summary
- Scope is required unless the change is truly global.
- Summary is imperative, 50-72 chars.
- Body is 1-3 short lines (no leading hyphens).
If any required field is unknown, infer the best value.";

pub open spec fn text_or_empty(o: Option<String>) -> Seq<char> {
    match o {
        Some(s) => s@,
        None => Seq::empty(),
    }
}

pub open spec fn mode_label(m: Option<DiffMode>) -> Seq<char> {
    match m {
        Some(DiffMode::Worktree) => "worktree"@,
        Some(DiffMode::Staged) => "staged"@,
        Some(DiffMode::All) => "all"@,
        None => Seq::empty(),
    }
}

pub open spec fn flag_label(b: Option<bool>) -> Seq<char> {
    match b {
        Some(true) => "true"@,
        Some(false) => "false"@,
        None => Seq::empty(),
    }
}

/// The user message: the request, the context lines, then the diff.
pub open spec fn user_prompt_of(c: PromptContext) -> Seq<char> {
    "You will be given a git diff and optional repo metadata.\nProduce an atomic commit plan as JSON only.\n\nContext:\n- repo_path: "@
        + text_or_empty(c.repo_path) + "\n- diff_mode: "@ + mode_label(c.diff_mode)
        + "\n- include_untracked: "@ + flag_label(c.include_untracked) + "\n- git_status: "@
        + text_or_empty(c.git_status) + "\n\nDiff:\n"@ + c.diff@
}

fn append_option(out: &mut String, o: &Option<String>)
    ensures
        final(out)@ == old(out)@ + text_or_empty(*o),
{
    match o {
        Some(s) => out.append(s.as_str()),
        None => {
            assert(old(out)@ + Seq::<char>::empty() =~= old(out)@);
        },
    }
}

fn build_user_prompt(context: &PromptContext) -> (r: String)
    ensures
        r@ == user_prompt_of(*context),
{
    let mut out = String::from_str(
        "You will be given a git diff and optional repo metadata.\nProduce an atomic commit plan as JSON only.\n\nContext:\n- repo_path: ",
    );
    append_option(&mut out, &context.repo_path);
    out.append("\n- diff_mode: ");
    let mode: &str = match context.diff_mode {
        Some(DiffMode::Worktree) => "worktree",
        Some(DiffMode::Staged) => "staged",
        Some(DiffMode::All) => "all",
        None => "",
    };
    proof {
        reveal_strlit("");
    }
    out.append(mode);
    out.append("\n- include_untracked: ");
    let flag: &str = match context.include_untracked {
        Some(true) => "true",
        Some(false) => "false",
        None => "",
    };
    out.append(flag);
    out.append("\n- git_status: ");
    append_option(&mut out, &context.git_status);
    out.append("\n\nDiff:\n");
    out.append(context.diff.as_str());
    out
}

/// The system instructions and the user message for `context`.
pub fn build_prompt(context: PromptContext) -> (r: Prompt)
    ensures
        r.system@ == SYSTEM_PROMPT@,
        r.user@ == user_prompt_of(context),
{
    Prompt { system: String::from_str(SYSTEM_PROMPT), user: build_user_prompt(&context) }
}

} // verus!
