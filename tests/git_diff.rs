use atomc_core::git::{reply_output, DiffRun, GitError, GitInvocation, GitReply};
use atomc_core::types::DiffMode;

const TRACKED: &str = "diff --git a/tracked.txt b/tracked.txt\n--- a/tracked.txt\n+++ b/tracked.txt\n@@ -1 +1,2 @@\n one\n+two\n";
const STAGED: &str = "diff --git a/staged.txt b/staged.txt\nnew file mode 100644\n--- /dev/null\n+++ b/staged.txt\n@@ -0,0 +1 @@\n+staged\n";
const UNTRACKED: &str = "diff --git a/untracked.txt b/untracked.txt\nnew file mode 100644\n--- /dev/null\n+++ b/untracked.txt\n@@ -0,0 +1 @@\n+untracked\n";

/// A repository with one unstaged change, one staged file and one untracked file.
fn repository(invocation: &GitInvocation) -> GitReply {
    let args: Vec<&str> = invocation.args.iter().map(|a| a.as_str()).collect();
    let (code, stdout) = match args.as_slice() {
        ["diff"] => (1, TRACKED.to_string()),
        ["diff", "--staged"] => (1, STAGED.to_string()),
        ["status", "--porcelain=v1", "-z"] => (0, " M tracked.txt\0A  staged.txt\0?? untracked.txt\0".to_string()),
        ["diff", "--no-index", "--", "/dev/null", "untracked.txt"] => (1, UNTRACKED.to_string()),
        other => panic!("unexpected invocation {:?}", other),
    };
    GitReply::Exited { success: code == 0, code: Some(code), stdout: Some(stdout), stderr: String::new() }
}

fn drive(mut run: DiffRun, repo: impl Fn(&GitInvocation) -> GitReply) -> (Result<String, GitError>, Vec<Vec<String>>) {
    let mut seen = Vec::new();
    while let Some(invocation) = run.pending() {
        seen.push(invocation.args.clone());
        let reply = repo(&invocation);
        run.advance(reply_output(&invocation, reply));
    }
    (run.into_text(), seen)
}

#[test]
fn compute_diff_worktree_includes_unstaged_only() {
    let (diff, _) = drive(DiffRun::new(DiffMode::Worktree, false), repository);
    let diff = diff.unwrap();

    assert!(diff.contains("tracked.txt"));
    assert!(!diff.contains("staged.txt"));
    assert!(!diff.contains("untracked.txt"));
}

#[test]
fn compute_diff_staged_includes_staged_only() {
    let (diff, _) = drive(DiffRun::new(DiffMode::Staged, false), repository);
    let diff = diff.unwrap();

    assert!(!diff.contains("tracked.txt"));
    assert!(diff.contains("staged.txt"));
    assert!(!diff.contains("untracked.txt"));
}

#[test]
fn compute_diff_all_includes_all_changes() {
    let (diff, _) = drive(DiffRun::new(DiffMode::All, true), repository);
    let diff = diff.unwrap();

    assert!(diff.contains("tracked.txt"));
    assert!(diff.contains("staged.txt"));
    assert!(diff.contains("untracked.txt"));
}

#[test]
fn all_mode_joins_parts_in_order_with_newlines() {
    let (diff, seen) = drive(DiffRun::new(DiffMode::All, true), repository);
    assert_eq!(diff.unwrap(), format!("{}\n{}\n{}", TRACKED, STAGED, UNTRACKED));
    assert_eq!(seen.len(), 4);
    assert_eq!(seen[0], vec!["diff"]);
    assert_eq!(seen[1], vec!["diff", "--staged"]);
    assert_eq!(seen[2], vec!["status", "--porcelain=v1", "-z"]);
    assert_eq!(seen[3], vec!["diff", "--no-index", "--", "/dev/null", "untracked.txt"]);
}

#[test]
fn blank_parts_are_left_out() {
    let repo = |invocation: &GitInvocation| {
        let stdout = if invocation.args.len() == 1 { "  \n".to_string() } else { STAGED.to_string() };
        GitReply::Exited { success: true, code: Some(0), stdout: Some(stdout), stderr: String::new() }
    };
    let (diff, _) = drive(DiffRun::new(DiffMode::All, false), repo);
    assert_eq!(diff.unwrap(), STAGED);
}

#[test]
fn nothing_pending_gives_empty_text() {
    let repo = |_: &GitInvocation| GitReply::Exited {
        success: true,
        code: Some(0),
        stdout: Some(String::new()),
        stderr: String::new(),
    };
    let (diff, _) = drive(DiffRun::new(DiffMode::Worktree, true), repo);
    assert_eq!(diff.unwrap(), "");
}

#[test]
fn a_failing_command_stops_the_run_with_its_error() {
    let repo = |_: &GitInvocation| GitReply::Exited {
        success: false,
        code: Some(128),
        stdout: Some(String::new()),
        stderr: "fatal: not a git repository".to_string(),
    };
    let (diff, seen) = drive(DiffRun::new(DiffMode::All, true), repo);
    assert_eq!(seen.len(), 1);
    match diff {
        Err(GitError::CommandFailed { cmd, stderr }) => {
            assert_eq!(cmd, "git diff");
            assert_eq!(stderr, "fatal: not a git repository");
        }
        other => panic!("unexpected outcome {:?}", other),
    }
}

#[test]
fn reply_kinds_stay_distinct() {
    let invocation = atomc_core::git::git_invocation(
        vec!["diff".to_string(), "--no-index".to_string()],
        &vec!["a.txt".to_string(), "b.txt".to_string()],
        true,
    );
    assert_eq!(invocation.display, "git diff --no-index -- a.txt b.txt");
    let launch = reply_output(&invocation, GitReply::LaunchFailed { message: "no git".to_string() });
    assert!(matches!(launch, Err(GitError::CommandIo { .. })));
    let not_utf8 = reply_output(
        &invocation,
        GitReply::Exited { success: true, code: Some(0), stdout: None, stderr: String::new() },
    );
    assert!(matches!(not_utf8, Err(GitError::OutputNotUtf8)));
    let changes = reply_output(
        &invocation,
        GitReply::Exited { success: false, code: Some(1), stdout: Some("x".to_string()), stderr: String::new() },
    );
    assert_eq!(changes.unwrap(), "x");
    let status = atomc_core::git::git_invocation(vec!["status".to_string()], &Vec::new(), false);
    let refused = reply_output(
        &status,
        GitReply::Exited { success: false, code: Some(1), stdout: Some("x".to_string()), stderr: "e".to_string() },
    );
    assert!(matches!(refused, Err(GitError::CommandFailed { .. })));
}
