use atomc_core::apply::{commit_header, ApplyRequest, ApplyRun};
use atomc_core::git::{reply_output, DiffRun, GitError, GitInvocation, GitReply};
use atomc_core::hash::diff_hash;
use atomc_core::types::{ApplyResult, ApplyStatus, CommitType, CommitUnit, DiffMode, InputSource, Hunk};

const FILE_DIFF: &str = "diff --git a/file.txt b/file.txt\nindex 5626abf..814f4a4 100644\n--- a/file.txt\n+++ b/file.txt\n@@ -1 +1,2 @@\n one\n+two\n";

/// A stand-in repository that answers the invocations an apply run makes.
struct Repo {
    worktree_diff: String,
    staged: Vec<String>,
    commits: Vec<Vec<String>>,
    calls: Vec<Vec<String>>,
    refuse_commit: bool,
}

impl Repo {
    fn new() -> Repo {
        Repo { worktree_diff: FILE_DIFF.to_string(), staged: Vec::new(), commits: Vec::new(), calls: Vec::new(), refuse_commit: false }
    }

    fn answer(&mut self, invocation: &GitInvocation) -> GitReply {
        let args = invocation.args.clone();
        self.calls.push(args.clone());
        let words: Vec<&str> = args.iter().map(|a| a.as_str()).collect();
        let ok = |stdout: String| GitReply::Exited { success: true, code: Some(0), stdout: Some(stdout), stderr: String::new() };
        match words.as_slice() {
            ["diff"] => ok(self.worktree_diff.clone()),
            ["diff", "--staged"] => ok(String::new()),
            ["reset", "-q", "--", files @ ..] => {
                self.staged.retain(|s| !files.contains(&s.as_str()));
                ok(String::new())
            }
            ["add", "--", files @ ..] => {
                for f in files {
                    if !self.staged.iter().any(|s| s == f) {
                        self.staged.push(f.to_string());
                    }
                }
                ok(String::new())
            }
            ["diff", "--staged", "--name-only", "-z"] => {
                ok(self.staged.iter().map(|s| format!("{}\0", s)).collect())
            }
            ["commit", "-m", ..] => {
                if self.staged.is_empty() || self.refuse_commit {
                    return GitReply::Exited { success: false, code: Some(1), stdout: Some(String::new()), stderr: "nothing to commit".to_string() };
                }
                self.commits.push(args[2..].to_vec());
                self.staged.clear();
                self.worktree_diff = String::new();
                ok(String::new())
            }
            ["rev-parse", "HEAD"] => ok(format!("{:040}\n", self.commits.len())),
            other => panic!("unexpected invocation {:?}", other),
        }
    }

    fn snapshot(&mut self, mode: DiffMode) -> String {
        let mut run = DiffRun::new(mode, false);
        while let Some(invocation) = run.pending() {
            let reply = self.answer(&invocation);
            run.advance(reply_output(&invocation, reply));
        }
        self.calls.clear();
        run.into_text().unwrap()
    }
}

fn drive(repo: &mut Repo, request: ApplyRequest) -> (Result<Vec<ApplyResult>, GitError>, Vec<ApplyResult>) {
    let mut run = ApplyRun::new(request);
    while let Some(invocation) = run.pending() {
        let reply = repo.answer(&invocation);
        run.advance(reply_output(&invocation, reply));
    }
    let applied = run.results.clone();
    (run.into_outcome(), applied)
}

fn sample_plan() -> Vec<CommitUnit> {
    vec![CommitUnit {
        id: "commit-1".to_string(),
        type_: CommitType::Docs,
        scope: Some("cli".to_string()),
        summary: "document apply execution flow and expected git outputs".to_string(),
        body: vec![
            "Update apply usage info".to_string(),
            "Note git execution ordering".to_string(),
        ],
        files: vec!["file.txt".to_string()],
        hunks: Vec::new(),
    }]
}

fn request(plan: Vec<CommitUnit>, diff: &str, cleanup_on_error: bool) -> ApplyRequest {
    ApplyRequest {
        repo: "repo".to_string(),
        plan,
        diff: diff.to_string(),
        source: InputSource::Repo,
        diff_mode: DiffMode::Worktree,
        include_untracked: false,
        expected_diff_hash: Some(diff_hash(diff)),
        cleanup_on_error,
    }
}

#[test]
fn apply_plan_creates_commit() {
    let mut repo = Repo::new();
    let diff = repo.snapshot(DiffMode::Worktree);
    let (results, _) = drive(&mut repo, request(sample_plan(), &diff, false));

    let results = results.unwrap();
    assert_eq!(results.len(), 1);
    assert_eq!(results[0].status, ApplyStatus::Applied);
    assert!(results[0].commit_hash.as_ref().unwrap().len() > 6);
}

#[test]
fn apply_plan_rejects_changed_diff() {
    let mut repo = Repo::new();
    let diff = repo.snapshot(DiffMode::Worktree);
    repo.worktree_diff = FILE_DIFF.replace("+two\n", "+two\n+three\n");

    let (error, _) = drive(&mut repo, request(sample_plan(), &diff, false));
    assert!(matches!(error.unwrap_err(), GitError::DiffHashMismatch { .. }));
    assert!(repo.commits.is_empty());
    assert!(repo.calls.iter().all(|c| c[0] == "diff"));
}

#[test]
fn apply_plan_rejects_diff_input_mismatch() {
    let mut repo = Repo::new();
    let diff = "diff --git a/file.txt b/file.txt\n";

    let (error, _) = drive(&mut repo, request(sample_plan(), diff, false));
    match error.unwrap_err() {
        GitError::DiffHashMismatch { expected, actual } => {
            assert_eq!(expected, diff_hash(diff));
            assert_eq!(actual, diff_hash(FILE_DIFF));
        }
        other => panic!("unexpected error {:?}", other),
    }
    assert!(repo.commits.is_empty());
}

#[test]
fn apply_plan_cleans_up_on_error() {
    let mut repo = Repo::new();
    repo.staged.push("extra.txt".to_string());
    let diff = repo.snapshot(DiffMode::Worktree);

    let (error, _) = drive(&mut repo, request(sample_plan(), &diff, true));
    match error.unwrap_err() {
        GitError::StagedFilesMismatch { id, expected, actual } => {
            assert_eq!(id, "commit-1");
            assert_eq!(expected, vec!["file.txt".to_string()]);
            assert_eq!(actual, vec!["extra.txt".to_string(), "file.txt".to_string()]);
        }
        other => panic!("unexpected error {:?}", other),
    }

    assert!(repo.staged.iter().any(|file| file == "extra.txt"));
    assert!(!repo.staged.iter().any(|file| file == "file.txt"));
    assert!(repo.commits.is_empty());
}

#[test]
fn staging_error_without_cleanup_leaves_files_staged() {
    let mut repo = Repo::new();
    repo.staged.push("extra.txt".to_string());
    let diff = repo.snapshot(DiffMode::Worktree);

    let (error, _) = drive(&mut repo, request(sample_plan(), &diff, false));
    assert!(matches!(error.unwrap_err(), GitError::StagedFilesMismatch { .. }));
    assert!(repo.staged.iter().any(|file| file == "file.txt"));
}

#[test]
fn unit_naming_file_outside_snapshot_is_rejected_before_staging() {
    let mut repo = Repo::new();
    let diff = repo.snapshot(DiffMode::Worktree);
    let mut plan = sample_plan();
    plan[0].files = vec!["other.txt".to_string()];

    let (error, _) = drive(&mut repo, request(plan, &diff, false));
    match error.unwrap_err() {
        GitError::PlanFileMissing { id, file } => {
            assert_eq!(id, "commit-1");
            assert_eq!(file, "other.txt");
        }
        other => panic!("unexpected error {:?}", other),
    }
    assert!(!repo.calls.iter().any(|c| c[0] == "add" || c[0] == "commit"));
    assert!(repo.commits.is_empty());
}

#[test]
fn unit_with_hunks_is_rejected() {
    let mut repo = Repo::new();
    let diff = repo.snapshot(DiffMode::Worktree);
    let mut plan = sample_plan();
    plan[0].hunks = vec![Hunk { file: "file.txt".to_string(), header: "@@ -1 +1,2 @@".to_string(), id: None }];

    let (error, _) = drive(&mut repo, request(plan, &diff, false));
    assert!(matches!(error.unwrap_err(), GitError::HunksNotSupported { .. }));
    assert!(repo.commits.is_empty());
}

#[test]
fn end_to_end_commit_subject_and_body() {
    let mut repo = Repo::new();
    let diff = repo.snapshot(DiffMode::Worktree);
    let mut plan = sample_plan();
    plan[0].type_ = CommitType::Test;
    plan[0].summary = "exercise the apply engine on one modified tracked file today".to_string();
    assert_eq!(plan[0].summary.chars().count(), 60);

    let (results, _) = drive(&mut repo, request(plan.clone(), &diff, false));
    let results = results.unwrap();
    assert_eq!(results.len(), 1);
    assert_eq!(results[0].status, ApplyStatus::Applied);
    assert_eq!(results[0].id, "commit-1");
    assert!(!results[0].commit_hash.as_ref().unwrap().is_empty());
    assert_eq!(repo.commits.len(), 1);
    let expected_subject = format!("test[cli]: {}", plan[0].summary);
    assert_eq!(repo.commits[0][0], expected_subject);
    assert_eq!(commit_header(&plan[0]), expected_subject);
    assert_eq!(
        repo.commits[0][1..].to_vec(),
        vec!["-m", "Update apply usage info", "-m", "Note git execution ordering"]
    );
}

#[test]
fn commit_header_without_scope() {
    let mut unit = sample_plan().remove(0);
    unit.scope = None;
    unit.type_ = CommitType::Refactor;
    assert_eq!(commit_header(&unit), format!("refactor: {}", unit.summary));
}

#[test]
fn supplied_diff_skips_reverification() {
    let mut repo = Repo::new();
    let mut req = request(sample_plan(), FILE_DIFF, false);
    req.source = InputSource::Diff;
    req.expected_diff_hash = None;
    let (results, _) = drive(&mut repo, req);
    assert!(results.is_ok());
    assert_eq!(repo.calls[0][0], "reset");
}

#[test]
fn every_unit_is_reverified_and_earlier_commits_stay_visible() {
    let mut repo = Repo::new();
    repo.worktree_diff = format!("{}diff --git a/second.txt b/second.txt\n+x\n", FILE_DIFF);
    let diff = repo.snapshot(DiffMode::Worktree);
    let mut plan = sample_plan();
    let mut second = plan[0].clone();
    second.id = "commit-2".to_string();
    second.files = vec!["second.txt".to_string()];
    plan.push(second);

    let (outcome, applied) = drive(&mut repo, request(plan, &diff, false));
    // The first commit changes the repository, so the check before the second unit fails.
    assert!(matches!(outcome.unwrap_err(), GitError::DiffHashMismatch { .. }));
    assert_eq!(repo.commits.len(), 1);
    assert_eq!(applied.len(), 1);
    assert_eq!(applied[0].id, "commit-1");
    let verifications = repo.calls.iter().filter(|c| c.len() == 1 && c[0] == "diff").count();
    assert_eq!(verifications, 3);
}

#[test]
fn empty_plan_only_verifies() {
    let mut repo = Repo::new();
    let diff = repo.snapshot(DiffMode::Worktree);
    let (results, _) = drive(&mut repo, request(Vec::new(), &diff, false));
    assert!(results.unwrap().is_empty());
    assert_eq!(repo.calls.len(), 1);
}

#[test]
fn missing_expected_token_defaults_to_the_snapshot() {
    let mut repo = Repo::new();
    let diff = repo.snapshot(DiffMode::Worktree);
    let mut req = request(sample_plan(), &diff, false);
    req.expected_diff_hash = None;
    let run = ApplyRun::new(req);
    assert_eq!(run.expected_hash, diff_hash(&diff));
    assert_eq!(run.diff_files, vec!["file.txt".to_string()]);
}

#[test]
fn failed_commit_reports_its_command_line_and_cleans_up() {
    let mut repo = Repo::new();
    repo.refuse_commit = true;
    let diff = repo.snapshot(DiffMode::Worktree);
    let plan = sample_plan();
    let (error, applied) = drive(&mut repo, request(plan.clone(), &diff, true));
    match error.unwrap_err() {
        GitError::CommandFailed { cmd, stderr } => {
            assert_eq!(cmd, format!("git commit -m {}", commit_header(&plan[0])));
            assert_eq!(stderr, "nothing to commit");
        }
        other => panic!("unexpected error {:?}", other),
    }
    assert!(applied.is_empty());
    assert!(repo.staged.is_empty());
}
