//! The apply engine: stages, verifies and commits each planned unit in order,
//! re-checking the diff fingerprint before every unit.
use vstd::prelude::*;
use crate::diff_text::{diff_files, listed_files, listed_names};
use crate::git::{copy_strings, git_invocation, trim, trimmed, DiffRun, GitError, GitInvocation};
use crate::hash::{diff_hash, fingerprint_of};
use crate::text::views;
use crate::types::{ApplyResult, ApplyStatus, CommitType, CommitUnit, DiffMode, InputSource};

verus! {

/// Everything needed to apply a plan against a diff snapshot.
pub struct ApplyRequest {
    /// Repository the invocations run in.
    pub repo: String,
    pub plan: Vec<CommitUnit>,
    /// The diff snapshot the plan was computed against.
    pub diff: String,
    pub source: InputSource,
    /// How to recompute the diff when re-verifying.
    pub diff_mode: DiffMode,
    pub include_untracked: bool,
    /// Expected fingerprint; defaults to the fingerprint of `diff`.
    pub expected_diff_hash: Option<String>,
    /// Unstage a unit's files when the unit fails.
    pub cleanup_on_error: bool,
}

/// Where an apply run stands.
pub enum ApplyStage {
    /// Recomputing the diff; `initial` marks the check made before the first unit.
    Verifying { run: DiffRun, initial: bool },
    /// Unstaging the unit's files.
    Resetting,
    /// Staging the unit's files.
    Adding,
    /// Reading back the staged file names.
    ListingStaged,
    /// Creating the commit.
    Committing,
    /// Reading the new commit's hash.
    ResolvingHead,
    /// Unstaging the unit's files after `error`; the run then ends with it.
    CleaningUp { error: GitError },
    /// The run is over: with `error`, or with every unit applied.
    Finished { error: Option<GitError> },
}

pub open spec fn type_label(t: CommitType) -> Seq<char> {
    match t {
        CommitType::Feat => "feat"@,
        CommitType::Fix => "fix"@,
        CommitType::Refactor => "refactor"@,
        CommitType::Style => "style"@,
        CommitType::Docs => "docs"@,
        CommitType::Test => "test"@,
        CommitType::Chore => "chore"@,
        CommitType::Build => "build"@,
        CommitType::Perf => "perf"@,
        CommitType::Ci => "ci"@,
    }
}

/// The commit subject: `type[scope]: summary`, or `type: summary` without a scope.
pub open spec fn header_of(u: CommitUnit) -> Seq<char> {
    match u.scope {
        Some(s) => type_label(u.type_) + "["@ + s@ + "]: "@ + u.summary@,
        None => type_label(u.type_) + ": "@ + u.summary@,
    }
}

/// `-m <line>` for each body line, in order.
pub open spec fn message_args(body: Seq<Seq<char>>) -> Seq<Seq<char>>
    decreases body.len(),
{
    if body.len() == 0 {
        Seq::empty()
    } else {
        message_args(body.drop_last()) + seq!["-m"@, body.last()]
    }
}

/// Arguments of the commit for a unit: its subject, then each body line as
/// a paragraph of its own.
pub open spec fn commit_args(u: CommitUnit) -> Seq<Seq<char>> {
    seq!["commit"@, "-m"@, header_of(u)] + message_args(views(u.body@))
}

/// Whether every name in `names` is among `known`.
pub open spec fn all_known(names: Seq<Seq<char>>, known: Seq<Seq<char>>) -> bool {
    forall|i: int| 0 <= i < names.len() ==> known.contains(#[trigger] names[i])
}

/// Index of the first of `files` that is not among `known`.
pub open spec fn first_unknown(files: Seq<Seq<char>>, known: Seq<Seq<char>>) -> Option<nat>
    decreases files.len(),
{
    if files.len() == 0 {
        None
    } else {
        match first_unknown(files.drop_last(), known) {
            Some(i) => Some(i),
            None => if known.contains(files.last()) {
                None
            } else {
                Some((files.len() - 1) as nat)
            },
        }
    }
}

/// A unit can be staged against a snapshot: it declares no hunks and each of
/// its files is touched by the snapshot.
pub open spec fn unit_admitted(u: CommitUnit, known: Seq<Seq<char>>) -> bool {
    u.hunks@.len() == 0 && all_known(views(u.files@), known)
}

/// What was staged may be committed for the unit: something, and nothing
/// that the unit did not declare.
pub open spec fn staging_ok(u: CommitUnit, staged: Seq<Seq<char>>) -> bool {
    staged.len() > 0 && all_known(staged, views(u.files@))
}

pub open spec fn result_applied(r: ApplyResult, u: CommitUnit) -> bool {
    &&& r.id == u.id
    &&& r.status == ApplyStatus::Applied
    &&& r.commit_hash is Some
    &&& r.error is None
}

/// The error an apply stage ends with, if it ends with one.
pub open spec fn stage_error(s: ApplyStage) -> Option<GitError> {
    match s {
        ApplyStage::CleaningUp { error } => Some(error),
        ApplyStage::Finished { error } => error,
        _ => None,
    }
}

/// The name of a commit type.
pub fn commit_type_str(commit_type: CommitType) -> (r: &'static str)
    ensures
        r@ == type_label(commit_type),
{
    match commit_type {
        CommitType::Feat => "feat",
        CommitType::Fix => "fix",
        CommitType::Refactor => "refactor",
        CommitType::Style => "style",
        CommitType::Docs => "docs",
        CommitType::Test => "test",
        CommitType::Chore => "chore",
        CommitType::Build => "build",
        CommitType::Perf => "perf",
        CommitType::Ci => "ci",
    }
}

/// The commit subject of a unit.
pub fn commit_header(unit: &CommitUnit) -> (r: String)
    ensures
        r@ == header_of(*unit),
{
    let mut r = String::from_str(commit_type_str(unit.type_));
    match &unit.scope {
        Some(scope) => {
            r.append("[");
            r.append(scope.as_str());
            r.append("]: ");
        },
        None => {
            r.append(": ");
        },
    }
    r.append(unit.summary.as_str());
    r
}

/// The invocation that commits what is staged for a unit.
pub fn commit_invocation(unit: &CommitUnit) -> (r: GitInvocation)
    ensures
        views(r.args@) == commit_args(*unit),
        r.display@ == "git commit -m "@ + header_of(*unit),
        !r.allow_exit_1,
{
    let header = commit_header(unit);
    let mut display = String::from_str("git commit -m ");
    display.append(header.as_str());
    let mut args: Vec<String> = vec![String::from_str("commit"), String::from_str("-m"), header];
    let ghost head = views(args@);
    let mut i: usize = 0;
    while i < unit.body.len()
        invariant
            i <= unit.body@.len(),
            views(args@) == head + message_args(views(unit.body@).take(i as int)),
        decreases unit.body@.len() - i,
    {
        proof {
            assert(views(unit.body@).take(i + 1).drop_last() =~= views(unit.body@).take(i as int));
            assert(views(unit.body@).take(i + 1).last() == unit.body@[i as int]@);
        }
        let ghost prior = views(args@);
        args.push(String::from_str("-m"));
        args.push(unit.body[i].clone());
        assert(views(args@) =~= prior + seq!["-m"@, unit.body@[i as int]@]);
        i = i + 1;
    }
    assert(views(unit.body@).take(unit.body@.len() as int) =~= views(unit.body@));
    GitInvocation { args, allow_exit_1: false, display }
}

/// Whether `name` is among `names`.
pub fn names_contain(names: &Vec<String>, name: &String) -> (r: bool)
    ensures
        r == views(names@).contains(name@),
{
    let mut i: usize = 0;
    while i < names.len()
        invariant
            i <= names@.len(),
            forall|j: int| 0 <= j < i ==> names@[j]@ != name@,
        decreases names@.len() - i,
    {
        if names[i].eq(name) {
            assert(views(names@)[i as int] == name@);
            return true;
        }
        i = i + 1;
    }
    proof {
        if views(names@).contains(name@) {
            let k = choose|k: int| 0 <= k < views(names@).len() && views(names@)[k] == name@;
            assert(names@[k]@ == name@);
        }
    }
    false
}

proof fn lemma_first_unknown_none(files: Seq<Seq<char>>, known: Seq<Seq<char>>)
    ensures
        first_unknown(files, known) is None <==> all_known(files, known),
        first_unknown(files, known) matches Some(i) ==> i < files.len() && !known.contains(
            files[i as int],
        ),
    decreases files.len(),
{
    if files.len() > 0 {
        lemma_first_unknown_none(files.drop_last(), known);
        if all_known(files, known) {
            assert(all_known(files.drop_last(), known)) by {
                assert forall|i: int| 0 <= i < files.drop_last().len() implies known.contains(
                    #[trigger] files.drop_last()[i],
                ) by {
                    assert(files.drop_last()[i] == files[i]);
                }
            }
            assert(known.contains(files[files.len() - 1]));
        }
        if first_unknown(files, known) is None {
            assert forall|i: int| 0 <= i < files.len() implies known.contains(#[trigger] files[i]) by {
                if i < files.len() - 1 {
                    assert(files.drop_last()[i] == files[i]);
                }
            }
        }
    }
}

/// Reject a unit that declares hunks, or that names a file the snapshot does
/// not touch (the first such file is reported).
pub fn check_unit(unit: &CommitUnit, known: &Vec<String>) -> (r: Result<(), GitError>)
    ensures
        unit.hunks@.len() > 0 ==> r == Err::<(), GitError>(
            GitError::HunksNotSupported { id: unit.id },
        ),
        unit.hunks@.len() == 0 ==> match first_unknown(views(unit.files@), views(known@)) {
            Some(i) => r == Err::<(), GitError>(
                GitError::PlanFileMissing { id: unit.id, file: unit.files@[i as int] },
            ),
            None => r is Ok,
        },
        r is Ok <==> unit_admitted(*unit, views(known@)),
{
    proof {
        lemma_first_unknown_none(views(unit.files@), views(known@));
    }
    if unit.hunks.len() > 0 {
        return Err(GitError::HunksNotSupported { id: unit.id.clone() });
    }
    let mut i: usize = 0;
    while i < unit.files.len()
        invariant
            i <= unit.files@.len(),
            unit.hunks@.len() == 0,
            first_unknown(views(unit.files@).take(i as int), views(known@)) is None,
        decreases unit.files@.len() - i,
    {
        proof {
            assert(views(unit.files@).take(i + 1).drop_last() =~= views(unit.files@).take(i as int));
            assert(views(unit.files@).take(i + 1).last() == unit.files@[i as int]@);
        }
        if !names_contain(known, &unit.files[i]) {
            proof {
                lemma_first_unknown_prefix(views(unit.files@), views(known@), i as nat);
            }
            return Err(GitError::PlanFileMissing { id: unit.id.clone(), file: unit.files[i].clone() });
        }
        i = i + 1;
    }
    assert(views(unit.files@).take(unit.files@.len() as int) =~= views(unit.files@));
    Ok(())
}

proof fn lemma_first_unknown_prefix(files: Seq<Seq<char>>, known: Seq<Seq<char>>, i: nat)
    requires
        i < files.len(),
        first_unknown(files.take(i as int), known) is None,
        !known.contains(files[i as int]),
    ensures
        first_unknown(files, known) == Some(i),
    decreases files.len(),
{
    if files.len() == i + 1 {
        assert(files.drop_last() =~= files.take(i as int));
    } else {
        assert(files.drop_last().take(i as int) =~= files.take(i as int));
        lemma_first_unknown_prefix(files.drop_last(), known, i);
    }
}

/// Accept what was staged for a unit only if it is non-empty and holds
/// nothing that the unit did not declare.
pub fn check_staged(unit: &CommitUnit, staged: &Vec<String>) -> (r: Result<(), GitError>)
    ensures
        staged@.len() == 0 ==> r == Err::<(), GitError>(GitError::StagedDiffEmpty { id: unit.id }),
        staged@.len() > 0 && !staging_ok(*unit, views(staged@)) ==> (r matches Err(
            GitError::StagedFilesMismatch { id, expected, actual },
        ) && id == unit.id && expected@ == unit.files@ && actual@ == staged@),
        r is Ok <==> staging_ok(*unit, views(staged@)),
{
    if staged.len() == 0 {
        return Err(GitError::StagedDiffEmpty { id: unit.id.clone() });
    }
    let mut i: usize = 0;
    while i < staged.len()
        invariant
            i <= staged@.len(),
            forall|j: int| 0 <= j < i ==> views(unit.files@).contains(#[trigger] views(staged@)[j]),
        decreases staged@.len() - i,
    {
        if !names_contain(&unit.files, &staged[i]) {
            assert(!views(unit.files@).contains(views(staged@)[i as int]));
            return Err(
                GitError::StagedFilesMismatch {
                    id: unit.id.clone(),
                    expected: copy_strings(&unit.files),
                    actual: copy_strings(staged),
                },
            );
        }
        i = i + 1;
    }
    Ok(())
}

/// Compare a freshly computed token with the expected one.
pub fn compare_hash(expected: &String, actual: String) -> (r: Result<(), GitError>)
    ensures
        expected@ == actual@ ==> r is Ok,
        expected@ != actual@ ==> (r matches Err(
            GitError::DiffHashMismatch { expected: e, actual: a },
        ) && e == *expected && a == actual),
{
    if actual.eq(expected) {
        Ok(())
    } else {
        Err(GitError::DiffHashMismatch { expected: expected.clone(), actual })
    }
}

/// An apply run: the plan, the snapshot facts it is checked against, the
/// results so far, and the stage the current unit is in.
///
/// The results of units committed before a failure stay readable in
/// `results` after the run has finished with an error.
pub struct ApplyRun {
    pub repo: String,
    pub plan: Vec<CommitUnit>,
    /// Files touched by the snapshot.
    pub diff_files: Vec<String>,
    pub source: InputSource,
    pub diff_mode: DiffMode,
    pub include_untracked: bool,
    pub expected_hash: String,
    pub cleanup_on_error: bool,
    /// One applied result per unit before `unit`.
    pub results: Vec<ApplyResult>,
    /// Index of the unit in progress.
    pub unit: usize,
    /// The staged names read back for the unit in progress.
    pub staged: Vec<String>,
    /// The most recent re-verification, once it has finished.
    pub last_check: Ghost<Option<DiffRun>>,
    pub stage: ApplyStage,
}

impl ApplyRun {
    pub open spec fn current(&self) -> CommitUnit {
        self.plan@[self.unit as int]
    }

    /// The most recent recomputed diff matched the expected token, or the
    /// snapshot is not tied to the repository.
    pub open spec fn snapshot_confirmed(&self) -> bool {
        self.source == InputSource::Repo ==> (self.last_check@ matches Some(r) && r.error is None
            && fingerprint_of(r.text()) == self.expected_hash@)
    }

    pub open spec fn wf(&self) -> bool {
        &&& self.unit <= self.plan@.len()
        &&& self.results@.len() == self.unit
        &&& forall|i: int|
            0 <= i < self.unit ==> #[trigger] result_applied(self.results@[i], self.plan@[i])
        &&& match self.stage {
            ApplyStage::Verifying { run, initial } => {
                &&& run.wf()
                &&& !run.is_done()
                &&& run.mode == self.diff_mode
                &&& run.include_untracked == self.include_untracked
                &&& self.source == InputSource::Repo
                &&& initial ==> self.unit == 0
                &&& !initial ==> self.unit < self.plan@.len()
            },
            ApplyStage::Resetting | ApplyStage::Adding => {
                &&& self.unit < self.plan@.len()
                &&& unit_admitted(self.current(), views(self.diff_files@))
                &&& self.snapshot_confirmed()
                &&& self.current().files@.len() > 0
            },
            ApplyStage::ListingStaged => {
                &&& self.unit < self.plan@.len()
                &&& unit_admitted(self.current(), views(self.diff_files@))
                &&& self.snapshot_confirmed()
            },
            ApplyStage::Committing | ApplyStage::ResolvingHead => {
                &&& self.unit < self.plan@.len()
                &&& unit_admitted(self.current(), views(self.diff_files@))
                &&& self.snapshot_confirmed()
                &&& staging_ok(self.current(), views(self.staged@))
            },
            ApplyStage::CleaningUp { .. } => {
                &&& self.unit < self.plan@.len()
                &&& self.cleanup_on_error
                &&& self.current().files@.len() > 0
            },
            ApplyStage::Finished { error } => error is None ==> self.unit == self.plan@.len(),
        }
    }

    /// The stage a failure of the current unit leads to.
    pub open spec fn after_failure(&self, e: GitError) -> ApplyStage {
        if self.cleanup_on_error && self.current().files@.len() > 0 {
            ApplyStage::CleaningUp { error: e }
        } else {
            ApplyStage::Finished { error: Some(e) }
        }
    }

    /// Fields that no step changes.
    pub open spec fn same_request(&self, other: &ApplyRun) -> bool {
        &&& self.repo == other.repo
        &&& self.plan@ == other.plan@
        &&& self.diff_files@ == other.diff_files@
        &&& self.source == other.source
        &&& self.diff_mode == other.diff_mode
        &&& self.include_untracked == other.include_untracked
        &&& self.expected_hash == other.expected_hash
        &&& self.cleanup_on_error == other.cleanup_on_error
    }

    /// Arguments of the invocation the run waits for.
    pub open spec fn pending_args(&self) -> Seq<Seq<char>> {
        match self.stage {
            ApplyStage::Verifying { run, .. } => run.pending_args(),
            ApplyStage::Resetting => seq!["reset"@, "-q"@, "--"@] + views(self.current().files@),
            ApplyStage::CleaningUp { .. } => seq!["reset"@, "-q"@, "--"@] + views(
                self.current().files@,
            ),
            ApplyStage::Adding => seq!["add"@, "--"@] + views(self.current().files@),
            ApplyStage::ListingStaged => seq!["diff"@, "--staged"@, "--name-only"@, "-z"@],
            ApplyStage::Committing => commit_args(self.current()),
            ApplyStage::ResolvingHead => seq!["rev-parse"@, "HEAD"@],
            ApplyStage::Finished { .. } => Seq::empty(),
        }
    }

    /// Start applying `request`. The expected token is the one given, else
    /// the fingerprint of the snapshot.
    pub fn new(request: ApplyRequest) -> (r: ApplyRun)
        ensures
            r.wf(),
            r.plan@ == request.plan@,
            views(r.diff_files@) == crate::diff_text::diff_paths(request.diff@),
            r.expected_hash@ == expected_token(request.expected_diff_hash, request.diff@),
            r.results@.len() == 0,
            r.unit == 0,
            r.started(request.source),
    {
        let expected_hash = match request.expected_diff_hash {
            Some(h) => h,
            None => diff_hash(request.diff.as_str()),
        };
        let files = diff_files(request.diff.as_str());
        let mut run = ApplyRun {
            repo: request.repo,
            plan: request.plan,
            diff_files: files,
            source: request.source,
            diff_mode: request.diff_mode,
            include_untracked: request.include_untracked,
            expected_hash,
            cleanup_on_error: request.cleanup_on_error,
            results: Vec::new(),
            unit: 0,
            staged: Vec::new(),
            last_check: Ghost(None),
            stage: ApplyStage::Finished { error: None },
        };
        match run.source {
            InputSource::Repo => {
                run.stage = ApplyStage::Verifying {
                    run: DiffRun::new(run.diff_mode, run.include_untracked),
                    initial: true,
                };
            },
            InputSource::Diff => {
                if run.plan.len() > 0 {
                    run.enter_unit();
                }
            },
        }
        run
    }

    /// Check the current unit against the snapshot, and stage it if it passes.
    fn enter_unit(&mut self)
        requires
            old(self).unit < old(self).plan@.len(),
            old(self).results@.len() == old(self).unit,
            forall|i: int|
                0 <= i < old(self).unit ==> #[trigger] result_applied(
                    old(self).results@[i],
                    old(self).plan@[i],
                ),
            old(self).snapshot_confirmed(),
        ensures
            final(self).wf(),
            final(self).same_request(old(self)),
            final(self).unit == old(self).unit,
            final(self).results@ == old(self).results@,
            final(self).last_check == old(self).last_check,
            final(self).unit_checked(),
    {
        let checked = check_unit(&self.plan[self.unit], &self.diff_files);
        match checked {
            Err(e) => {
                self.fail(e);
            },
            Ok(()) => {
                if self.plan[self.unit].files.len() > 0 {
                    self.stage = ApplyStage::Resetting;
                } else {
                    self.stage = ApplyStage::ListingStaged;
                }
            },
        }
    }

    fn fail(&mut self, e: GitError)
        requires
            old(self).unit < old(self).plan@.len(),
        ensures
            final(self).stage == old(self).after_failure(e),
            final(self).same_request(old(self)),
            final(self).unit == old(self).unit,
            final(self).results@ == old(self).results@,
            final(self).staged@ == old(self).staged@,
            final(self).last_check == old(self).last_check,
    {
        if self.cleanup_on_error && self.plan[self.unit].files.len() > 0 {
            self.stage = ApplyStage::CleaningUp { error: e };
        } else {
            self.stage = ApplyStage::Finished { error: Some(e) };
        }
    }

    /// Move on to the unit at `unit`, or finish when none is left.
    fn next_unit(&mut self)
        requires
            old(self).unit <= old(self).plan@.len(),
            old(self).results@.len() == old(self).unit,
            forall|i: int|
                0 <= i < old(self).unit ==> #[trigger] result_applied(
                    old(self).results@[i],
                    old(self).plan@[i],
                ),
            old(self).snapshot_confirmed(),
        ensures
            final(self).wf(),
            final(self).same_request(old(self)),
            final(self).unit == old(self).unit,
            final(self).results@ == old(self).results@,
            final(self).last_check == old(self).last_check,
            final(self).entered_next(),
    {
        if self.unit == self.plan.len() {
            self.stage = ApplyStage::Finished { error: None };
        } else {
            match self.source {
                InputSource::Repo => {
                    self.stage = ApplyStage::Verifying {
                        run: DiffRun::new(self.diff_mode, self.include_untracked),
                        initial: false,
                    };
                },
                InputSource::Diff => {
                    self.enter_unit();
                },
            }
        }
    }

    /// Every unit was applied and the run is over.
    pub open spec fn is_complete(&self) -> bool {
        self.stage == ApplyStage::Finished { error: None }
    }

    /// The run is about to recompute the diff from scratch; `initial` marks
    /// the check before the first unit.
    pub open spec fn verifying_fresh(&self, initial: bool) -> bool {
        self.stage matches ApplyStage::Verifying { run, initial: i } && i == initial && run.is_fresh(
            self.diff_mode,
            self.include_untracked,
        )
    }

    /// The current unit has been checked against the snapshot: a unit with
    /// hunks or with a file the snapshot does not touch fails, else its
    /// files are staged (or, with none, the staged set is read back).
    pub open spec fn unit_checked(&self) -> bool {
        match check_unit_spec(self.current(), views(self.diff_files@)) {
            Some(e) => self.stage == self.after_failure(e),
            None => if self.current().files@.len() > 0 {
                self.stage is Resetting
            } else {
                self.stage is ListingStaged
            },
        }
    }

    /// The run has moved on to the unit at `unit`: done when none is left,
    /// else re-verifying for a repository snapshot, else checking the unit.
    pub open spec fn entered_next(&self) -> bool {
        if self.unit == self.plan@.len() {
            self.is_complete()
        } else if self.source == InputSource::Repo {
            self.verifying_fresh(false)
        } else {
            self.unit_checked()
        }
    }

    /// Where a fresh run stands: re-verifying first for a repository snapshot;
    /// otherwise done for an empty plan, or past the checks of the first unit.
    pub open spec fn started(&self, source: InputSource) -> bool {
        if source == InputSource::Repo {
            self.verifying_fresh(true)
        } else if self.plan@.len() == 0 {
            self.is_complete()
        } else {
            self.unit_checked()
        }
    }

    /// Whether the run is over.
    pub open spec fn is_done(&self) -> bool {
        self.stage is Finished
    }

    /// The invocation the run waits for, or nothing once it is over.
    pub fn pending(&self) -> (r: Option<GitInvocation>)
        requires
            self.wf(),
        ensures
            r is None <==> self.is_done(),
            r matches Some(inv) ==> views(inv.args@) == self.pending_args(),
            self.stage is Committing ==> (r matches Some(inv) && inv.display@ == "git commit -m "@
                + header_of(self.current())),
    {
        let none: Vec<String> = Vec::new();
        match &self.stage {
            ApplyStage::Verifying { run, .. } => run.pending(),
            ApplyStage::Resetting | ApplyStage::CleaningUp { .. } => {
                let base = vec![
                    String::from_str("reset"),
                    String::from_str("-q"),
                    String::from_str("--"),
                ];
                let inv = git_invocation(base, &self.plan[self.unit].files, false);
                proof {
                    assert(views(inv.args@) =~= self.pending_args());
                }
                Some(inv)
            },
            ApplyStage::Adding => {
                let base = vec![String::from_str("add"), String::from_str("--")];
                let inv = git_invocation(base, &self.plan[self.unit].files, false);
                proof {
                    assert(views(inv.args@) =~= self.pending_args());
                }
                Some(inv)
            },
            ApplyStage::ListingStaged => {
                let base = vec![
                    String::from_str("diff"),
                    String::from_str("--staged"),
                    String::from_str("--name-only"),
                    String::from_str("-z"),
                ];
                let inv = git_invocation(base, &none, true);
                proof {
                    assert(views(inv.args@) =~= self.pending_args());
                }
                Some(inv)
            },
            ApplyStage::Committing => Some(commit_invocation(&self.plan[self.unit])),
            ApplyStage::ResolvingHead => {
                let base = vec![String::from_str("rev-parse"), String::from_str("HEAD")];
                let inv = git_invocation(base, &none, false);
                proof {
                    assert(views(inv.args@) =~= self.pending_args());
                }
                Some(inv)
            },
            ApplyStage::Finished { .. } => None,
        }
    }

    /// Take the outcome of the pending invocation.
    ///
    /// A recomputed diff whose token differs from the expected one ends the
    /// run with a mismatch; a unit that fails its checks, its staging or its
    /// commit ends the run with that error, after unstaging its files when
    /// cleanup was asked for; reading back a commit hash records the unit as
    /// applied and moves on.
    pub fn advance(&mut self, outcome: Result<String, GitError>)
        requires
            old(self).wf(),
            !old(self).is_done(),
        ensures
            final(self).wf(),
            final(self).same_request(old(self)),
            step_ok(*old(self), *final(self), outcome),
    {
        let ghost pre_results = self.results@;
        let mut stage = ApplyStage::Finished { error: None };
        core::mem::swap(&mut self.stage, &mut stage);
        match stage {
            ApplyStage::Verifying { mut run, initial } => {
                run.advance(outcome);
                if run.pending().is_some() {
                    self.stage = ApplyStage::Verifying { run, initial };
                    assert(self.results@.take(pre_results.len() as int) =~= pre_results);
                    return;
                }
                self.last_check = Ghost(Some(run));
                match run.into_text() {
                    Err(e) => {
                        self.stage = ApplyStage::Finished { error: Some(e) };
                    },
                    Ok(text) => {
                        let actual = diff_hash(text.as_str());
                        match compare_hash(&self.expected_hash, actual) {
                            Err(e) => {
                                self.stage = ApplyStage::Finished { error: Some(e) };
                            },
                            Ok(()) => {
                                if initial {
                                    self.next_unit();
                                } else {
                                    self.enter_unit();
                                }
                            },
                        }
                    },
                }
            },
            ApplyStage::Resetting => match outcome {
                Err(e) => self.fail(e),
                Ok(_) => {
                    self.stage = ApplyStage::Adding;
                },
            },
            ApplyStage::Adding => match outcome {
                Err(e) => self.fail(e),
                Ok(_) => {
                    self.stage = ApplyStage::ListingStaged;
                },
            },
            ApplyStage::ListingStaged => match outcome {
                Err(e) => self.fail(e),
                Ok(out) => {
                    let staged = listed_files(out.as_str());
                    match check_staged(&self.plan[self.unit], &staged) {
                        Err(e) => self.fail(e),
                        Ok(()) => {
                            self.staged = staged;
                            self.stage = ApplyStage::Committing;
                        },
                    }
                },
            },
            ApplyStage::Committing => match outcome {
                Err(e) => self.fail(e),
                Ok(_) => {
                    self.stage = ApplyStage::ResolvingHead;
                },
            },
            ApplyStage::ResolvingHead => match outcome {
                Err(e) => self.fail(e),
                Ok(out) => {
                    let hash = trimmed(out.as_str());
                    let result = ApplyResult {
                        id: self.plan[self.unit].id.clone(),
                        status: ApplyStatus::Applied,
                        commit_hash: Some(hash),
                        error: None,
                    };
                    let n = self.plan.len();
                    assert(self.unit < n);
                    self.results.push(result);
                    self.unit = self.unit + 1;
                    self.next_unit();
                },
            },
            ApplyStage::CleaningUp { error } => {
                self.stage = ApplyStage::Finished { error: Some(error) };
            },
            ApplyStage::Finished { error } => {
                self.stage = ApplyStage::Finished { error };
            },
        }
        assert(self.results@.take(pre_results.len() as int) =~= pre_results);
    }

    /// The results of a run that applied every unit, or the error that ended it.
    pub fn into_outcome(self) -> (r: Result<Vec<ApplyResult>, GitError>)
        requires
            self.wf(),
            self.is_done(),
        ensures
            match self.stage {
                ApplyStage::Finished { error: Some(e) } => r == Err::<Vec<ApplyResult>, GitError>(e),
                _ => r matches Ok(results) && results@ == self.results@ && results@.len()
                    == self.plan@.len() && forall|i: int|
                    0 <= i < results@.len() ==> #[trigger] result_applied(
                        results@[i],
                        self.plan@[i],
                    ),
            },
    {
        match self.stage {
            ApplyStage::Finished { error: Some(e) } => Err(e),
            _ => Ok(self.results),
        }
    }
}

/// The token a run checks against: the one given, else the snapshot's own.
pub open spec fn expected_token(given: Option<String>, diff: Seq<char>) -> Seq<char> {
    match given {
        Some(h) => h@,
        None => fingerprint_of(diff),
    }
}

/// Whether a step is in progress in a stage that stages or commits a unit.
pub open spec fn in_unit_work(s: ApplyStage) -> bool {
    s is Resetting || s is Adding || s is ListingStaged || s is Committing || s is ResolvingHead
}

/// The record of a unit whose new commit `rev-parse` reported as `out`.
pub open spec fn applied_record(r: ApplyResult, u: CommitUnit, out: Seq<char>) -> bool {
    &&& r.id == u.id
    &&& r.status == ApplyStatus::Applied
    &&& r.error is None
    &&& r.commit_hash matches Some(h) && h@ == trim(out)
}

/// A re-verification step: the inner diff run advances; once it is done,
/// its outcome is kept as the last check, a failure ends the run, a token
/// other than the expected one ends it with a mismatch carrying both, and
/// otherwise the run moves on to the (next) unit.
pub open spec fn verify_step_ok(
    pre: ApplyRun,
    post: ApplyRun,
    run: DiffRun,
    initial: bool,
    outcome: Result<String, GitError>,
) -> bool {
    ||| {
        &&& post.stage matches ApplyStage::Verifying { run: r2, initial: i2 } && i2 == initial
            && DiffRun::advanced(run, outcome, r2) && r2.wf() && !r2.is_done()
        &&& post.last_check == pre.last_check
    }
    ||| post.last_check@ matches Some(r2) && DiffRun::advanced(run, outcome, r2) && r2.wf()
        && r2.is_done() && match r2.error {
        Some(e) => post.stage == (ApplyStage::Finished { error: Some(e) }),
        None => if fingerprint_of(r2.text()) != pre.expected_hash@ {
            post.stage matches ApplyStage::Finished {
                error: Some(GitError::DiffHashMismatch { expected, actual }),
            } && expected == pre.expected_hash && actual@ == fingerprint_of(r2.text())
        } else if initial {
            post.entered_next()
        } else {
            post.unit_checked()
        },
    }
}

/// Reading back the staged names: the unit is committed only if the staged
/// set is non-empty and declared by the unit; otherwise it fails with the
/// exact staging error, unstaging its files first when cleanup was asked for.
pub open spec fn listing_step_ok(pre: ApplyRun, post: ApplyRun, out: Seq<char>) -> bool {
    let names = listed_names(out);
    let u = pre.current();
    if staging_ok(u, names) {
        post.stage is Committing && views(post.staged@) == names
    } else if names.len() == 0 {
        post.stage == pre.after_failure(GitError::StagedDiffEmpty { id: u.id })
    } else {
        stage_error(post.stage) matches Some(e) && post.stage == pre.after_failure(e) && (e matches
            GitError::StagedFilesMismatch { id, expected, actual } && id == u.id && expected@
            == u.files@ && views(actual@) == names)
    }
}

/// What one step of an apply run does with the outcome of its invocation.
pub open spec fn step_ok(pre: ApplyRun, post: ApplyRun, outcome: Result<String, GitError>) -> bool {
    &&& post.same_request(&pre)
    // Only reading back a new commit records a result and moves to the next unit.
    &&& !(pre.stage is ResolvingHead && outcome is Ok) ==> (post.results@ == pre.results@
        && post.unit == pre.unit)
    &&& match pre.stage {
        ApplyStage::Verifying { run, initial } => verify_step_ok(pre, post, run, initial, outcome),
        ApplyStage::Resetting => match outcome {
            Err(e) => post.stage == pre.after_failure(e),
            Ok(_) => post.stage is Adding,
        },
        ApplyStage::Adding => match outcome {
            Err(e) => post.stage == pre.after_failure(e),
            Ok(_) => post.stage is ListingStaged,
        },
        ApplyStage::ListingStaged => match outcome {
            Err(e) => post.stage == pre.after_failure(e),
            Ok(out) => listing_step_ok(pre, post, out@),
        },
        ApplyStage::Committing => match outcome {
            Err(e) => post.stage == pre.after_failure(e),
            Ok(_) => post.stage is ResolvingHead,
        },
        ApplyStage::ResolvingHead => match outcome {
            Err(e) => post.stage == pre.after_failure(e),
            Ok(out) => {
                &&& post.unit == pre.unit + 1
                &&& post.results@.len() == pre.results@.len() + 1
                &&& post.results@.drop_last() == pre.results@
                &&& applied_record(post.results@.last(), pre.current(), out@)
                &&& post.entered_next()
            },
        },
        // Cleanup ends the run with the error that caused it, whatever the reset did.
        ApplyStage::CleaningUp { error } => post.stage == (ApplyStage::Finished {
            error: Some(error),
        }),
        ApplyStage::Finished { .. } => true,
    }
}

/// The error `check_unit` reports for a unit, if any.
pub open spec fn check_unit_spec(u: CommitUnit, known: Seq<Seq<char>>) -> Option<GitError> {
    if u.hunks@.len() > 0 {
        Some(GitError::HunksNotSupported { id: u.id })
    } else {
        match first_unknown(views(u.files@), known) {
            Some(i) => Some(GitError::PlanFileMissing { id: u.id, file: u.files@[i as int] }),
            None => None,
        }
    }
}

/// A unit that names a file the snapshot does not touch is never staged or
/// committed: no well-formed run is in a staging or commit stage for it.
pub proof fn lemma_unknown_file_never_staged(run: ApplyRun, i: int)
    requires
        run.wf(),
        run.unit < run.plan@.len(),
        0 <= i < run.current().files@.len(),
        !views(run.diff_files@).contains(run.current().files@[i]@),
    ensures
        !in_unit_work(run.stage),
{
    if in_unit_work(run.stage) {
        assert(views(run.current().files@)[i] == run.current().files@[i]@);
    }
}

/// A commit is only ever made while the most recently recomputed diff of a
/// repository snapshot still has the expected token, and while what is
/// staged is non-empty and declared by the unit.
pub proof fn lemma_commit_needs_fresh_snapshot(run: ApplyRun)
    requires
        run.wf(),
        run.stage is Committing,
    ensures
        run.source == InputSource::Repo ==> (run.last_check@ matches Some(r) && r.error is None
            && fingerprint_of(r.text()) == run.expected_hash@),
        staging_ok(run.current(), views(run.staged@)),
        unit_admitted(run.current(), views(run.diff_files@)),
{
}

} // verus!
