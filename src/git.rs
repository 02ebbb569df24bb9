//! Git invocations and the diff computation that drives them.
//!
//! Nothing here runs a process. A caller asks a run for its pending
//! invocation, performs it, turns the process result into an outcome with
//! [`reply_output`], and hands that outcome back.
use vstd::prelude::*;
use crate::diff_text::{listed_names, skip_ws, skip_ws_from, untracked_files, untracked_paths};
use crate::text::{chars_of, is_blank, is_white_space, blank, string_of, views, white_space};
use crate::types::DiffMode;

verus! {

/// A failure while computing a diff or applying a plan.
#[derive(Debug, Clone)]
pub enum GitError {
    /// A git process exited unsuccessfully.
    CommandFailed { cmd: String, stderr: String },
    /// A git process could not be started.
    CommandIo { cmd: String, message: String },
    /// A git process wrote output that is not UTF-8.
    OutputNotUtf8,
    /// The repository no longer matches the diff snapshot.
    DiffHashMismatch { expected: String, actual: String },
    /// A unit asks for hunk-level staging.
    HunksNotSupported { id: String },
    /// A unit names a file that the diff snapshot does not touch.
    PlanFileMissing { id: String, file: String },
    /// Files other than the unit's own ended up staged.
    StagedFilesMismatch { id: String, expected: Vec<String>, actual: Vec<String> },
    /// Nothing ended up staged for a unit.
    StagedDiffEmpty { id: String },
}

/// One git process to run in the repository.
#[derive(Debug, Clone)]
pub struct GitInvocation {
    /// Arguments after `git`.
    pub args: Vec<String>,
    /// Whether exit status 1 signals "changes present" rather than failure.
    pub allow_exit_1: bool,
    /// The command line shown in error reports.
    pub display: String,
}

/// What running a git process produced.
#[derive(Debug, Clone)]
pub enum GitReply {
    /// The process could not be started.
    LaunchFailed { message: String },
    /// The process ran to completion; `stdout` is absent when it was not UTF-8.
    Exited { success: bool, code: Option<i32>, stdout: Option<String>, stderr: String },
}

/// `parts` joined with `sep` between neighbours.
pub open spec fn join(parts: Seq<Seq<char>>, sep: Seq<char>) -> Seq<char>
    decreases parts.len(),
{
    if parts.len() == 0 {
        Seq::empty()
    } else if parts.len() == 1 {
        parts[0]
    } else {
        join(parts.drop_last(), sep) + sep + parts.last()
    }
}

/// The command line of an invocation: `git`, its arguments, and the paths
/// after a `--` marker when there are any.
pub open spec fn command_line(base: Seq<Seq<char>>, paths: Seq<Seq<char>>) -> Seq<char> {
    "git "@ + join(base, " "@) + if paths.len() == 0 {
        Seq::<char>::empty()
    } else {
        " -- "@ + join(paths, " "@)
    }
}

/// Whether a process result counts as success for an invocation.
pub open spec fn exit_accepted(allow_exit_1: bool, success: bool, code: Option<i32>) -> bool {
    success || (allow_exit_1 && code == Some(1i32))
}

/// `s` without whitespace at its end.
pub open spec fn trim_end(s: Seq<char>) -> Seq<char>
    decreases s.len(),
{
    if s.len() > 0 && is_white_space(s.last()) {
        trim_end(s.drop_last())
    } else {
        s
    }
}

/// `s` without whitespace at either end.
pub open spec fn trim(s: Seq<char>) -> Seq<char> {
    trim_end(skip_ws(s))
}

/// `parts` joined with `sep`.
pub fn join_text(parts: &Vec<String>, sep: &str) -> (r: String)
    ensures
        r@ == join(views(parts@), sep@),
{
    let mut r = String::new();
    let mut i: usize = 0;
    while i < parts.len()
        invariant
            i <= parts@.len(),
            r@ == join(views(parts@).take(i as int), sep@),
        decreases parts@.len() - i,
    {
        proof {
            assert(views(parts@).take(i + 1).drop_last() =~= views(parts@).take(i as int));
            assert(views(parts@).take(i + 1).last() == parts@[i as int]@);
        }
        if i > 0 {
            r.append(sep);
        } else {
            assert(views(parts@).take(1) =~= seq![parts@[0]@]);
        }
        r.append(parts[i].as_str());
        i = i + 1;
    }
    assert(views(parts@).take(parts@.len() as int) =~= views(parts@));
    r
}

/// A copy of `v`, element for element.
pub fn copy_strings(v: &Vec<String>) -> (r: Vec<String>)
    ensures
        r@ == v@,
{
    let mut r: Vec<String> = Vec::new();
    let mut i: usize = 0;
    while i < v.len()
        invariant
            i <= v@.len(),
            r@ == v@.take(i as int),
        decreases v@.len() - i,
    {
        r.push(v[i].clone());
        assert(v@.take(i + 1) =~= v@.take(i as int).push(v@[i as int]));
        i = i + 1;
    }
    assert(v@.take(v@.len() as int) =~= v@);
    r
}

/// An invocation of `git <base> <paths>`.
pub fn git_invocation(base: Vec<String>, paths: &Vec<String>, allow_exit_1: bool) -> (r:
    GitInvocation)
    ensures
        views(r.args@) == views(base@) + views(paths@),
        r.display@ == command_line(views(base@), views(paths@)),
        r.allow_exit_1 == allow_exit_1,
{
    let mut display = String::from_str("git ");
    let joined = join_text(&base, " ");
    display.append(joined.as_str());
    if paths.len() > 0 {
        display.append(" -- ");
        let listed = join_text(paths, " ");
        display.append(listed.as_str());
    }
    let mut args = base;
    let ghost base_args = args@;
    let mut i: usize = 0;
    while i < paths.len()
        invariant
            i <= paths@.len(),
            args@ == base_args + paths@.take(i as int),
        decreases paths@.len() - i,
    {
        args.push(paths[i].clone());
        assert(paths@.take(i + 1) =~= paths@.take(i as int).push(paths@[i as int]));
        i = i + 1;
    }
    proof {
        assert(paths@.take(paths@.len() as int) =~= paths@);
        assert(views(args@) =~= views(base_args) + views(paths@));
        if paths@.len() == 0 {
            assert(display@ =~= command_line(views(base_args), views(paths@)));
        } else {
            assert(display@ =~= command_line(views(base_args), views(paths@)));
        }
    }
    GitInvocation { args, allow_exit_1, display }
}

/// The outcome of an invocation: its standard output when the process was
/// accepted, else the error that says why not.
pub fn reply_output(invocation: &GitInvocation, reply: GitReply) -> (r: Result<String, GitError>)
    ensures
        match reply {
            GitReply::LaunchFailed { message } => r == Err::<String, GitError>(
                GitError::CommandIo { cmd: invocation.display, message },
            ),
            GitReply::Exited { success, code, stdout, stderr } => if !exit_accepted(
                invocation.allow_exit_1,
                success,
                code,
            ) {
                r == Err::<String, GitError>(
                    GitError::CommandFailed { cmd: invocation.display, stderr },
                )
            } else {
                match stdout {
                    Some(text) => r == Ok::<String, GitError>(text),
                    None => r == Err::<String, GitError>(GitError::OutputNotUtf8),
                }
            },
        },
{
    match reply {
        GitReply::LaunchFailed { message } => Err(
            GitError::CommandIo { cmd: invocation.display.clone(), message },
        ),
        GitReply::Exited { success, code, stdout, stderr } => {
            let accepted = success || (invocation.allow_exit_1 && match code {
                Some(c) => c == 1,
                None => false,
            });
            if !accepted {
                Err(GitError::CommandFailed { cmd: invocation.display.clone(), stderr })
            } else {
                match stdout {
                    Some(text) => Ok(text),
                    None => Err(GitError::OutputNotUtf8),
                }
            }
        },
    }
}

/// `s` without whitespace at either end.
pub fn trimmed(s: &str) -> (r: String)
    ensures
        r@ == trim(s@),
{
    let cs = chars_of(s);
    let from = skip_ws_from(&cs, 0);
    let mut to = cs.len();
    proof {
        assert(cs@.skip(0) =~= cs@);
        assert(cs@.skip(from as int) =~= cs@.subrange(from as int, to as int));
    }
    while to > from && white_space(cs[to - 1])
        invariant
            from <= to <= cs@.len(),
            trim(s@) == trim_end(cs@.subrange(from as int, to as int)),
        decreases to,
    {
        proof {
            assert(cs@.subrange(from as int, to as int).drop_last() =~= cs@.subrange(
                from as int,
                to - 1,
            ));
        }
        to = to - 1;
    }
    proof {
        let t = cs@.subrange(from as int, to as int);
        if to > from {
            assert(t.last() == cs@[to - 1]);
        } else {
            assert(t.len() == 0);
        }
    }
    string_of(&cs, from, to)
}

/// Number of mode-specific diffs for `mode`.
pub open spec fn fixed_count(mode: DiffMode) -> nat {
    match mode {
        DiffMode::All => 2,
        _ => 1,
    }
}

/// Arguments of the `k`-th mode-specific diff.
pub open spec fn fixed_args(mode: DiffMode, k: nat) -> Seq<Seq<char>> {
    match mode {
        DiffMode::Worktree => seq!["diff"@],
        DiffMode::Staged => seq!["diff"@, "--staged"@],
        DiffMode::All => if k == 0 {
            seq!["diff"@]
        } else {
            seq!["diff"@, "--staged"@]
        },
    }
}

pub open spec fn status_args() -> Seq<Seq<char>> {
    seq!["status"@, "--porcelain=v1"@, "-z"@]
}

/// Arguments that diff an untracked path against an empty file.
pub open spec fn untracked_args(path: Seq<char>) -> Seq<Seq<char>> {
    seq!["diff"@, "--no-index"@, "--"@, "/dev/null"@, path]
}

/// `parts` with `text` added unless it is blank.
pub open spec fn with_part(parts: Seq<String>, text: String) -> Seq<String> {
    if is_blank(text@) {
        parts
    } else {
        parts.push(text)
    }
}

/// A diff computation in progress: the mode-specific diffs in order, then,
/// when untracked files are included, a status scan and one diff per
/// untracked path in scan order. The result is the non-blank outputs joined
/// by newlines.
pub struct DiffRun {
    pub mode: DiffMode,
    pub include_untracked: bool,
    /// Non-blank outputs so far, in order.
    pub parts: Vec<String>,
    /// Mode-specific diffs answered.
    pub fixed_done: usize,
    /// Untracked paths, once the status scan has answered.
    pub untracked: Option<Vec<String>>,
    /// Untracked diffs answered.
    pub untracked_done: usize,
    /// The failure that ended the run, if any.
    pub error: Option<GitError>,
}

impl DiffRun {
    pub open spec fn wf(&self) -> bool {
        &&& self.fixed_done <= fixed_count(self.mode)
        &&& match self.untracked {
            Some(paths) => {
                &&& self.include_untracked
                &&& self.fixed_done == fixed_count(self.mode)
                &&& self.untracked_done <= paths@.len()
            },
            None => self.untracked_done == 0,
        }
    }

    /// Whether the run has nothing more to ask.
    pub open spec fn is_done(&self) -> bool {
        ||| self.error is Some
        ||| {
            &&& self.fixed_done == fixed_count(self.mode)
            &&& !self.include_untracked || match self.untracked {
                Some(paths) => self.untracked_done == paths@.len(),
                None => false,
            }
        }
    }

    /// Arguments of the invocation the run waits for.
    pub open spec fn pending_args(&self) -> Seq<Seq<char>> {
        if self.fixed_done < fixed_count(self.mode) {
            fixed_args(self.mode, self.fixed_done as nat)
        } else {
            match self.untracked {
                None => status_args(),
                Some(paths) => untracked_args(paths@[self.untracked_done as int]@),
            }
        }
    }

    /// Whether the invocation the run waits for is a status scan.
    pub open spec fn awaits_status(&self) -> bool {
        self.fixed_done == fixed_count(self.mode) && self.untracked is None
    }

    /// The diff text of a finished run.
    pub open spec fn text(&self) -> Seq<char> {
        join(views(self.parts@), seq!['\n'])
    }

    /// A run that has asked nothing yet, for `mode` and `include_untracked`.
    pub open spec fn is_fresh(&self, mode: DiffMode, include_untracked: bool) -> bool {
        &&& self.wf()
        &&& !self.is_done()
        &&& self.mode == mode
        &&& self.include_untracked == include_untracked
        &&& self.parts@.len() == 0
        &&& self.fixed_done == 0
        &&& self.untracked is None
        &&& self.untracked_done == 0
        &&& self.error is None
    }

    /// What one step does with the outcome of the pending invocation: a
    /// failure ends the run; a status scan records the untracked paths; a
    /// diff output is kept unless blank, and the next diff is asked for.
    pub open spec fn advanced(pre: DiffRun, outcome: Result<String, GitError>, post: DiffRun) -> bool {
        &&& post.mode == pre.mode
        &&& post.include_untracked == pre.include_untracked
        &&& match outcome {
            Err(e) => {
                &&& post.error == Some(e)
                &&& post.parts@ == pre.parts@
                &&& post.fixed_done == pre.fixed_done
                &&& post.untracked == pre.untracked
                &&& post.untracked_done == pre.untracked_done
            },
            Ok(text) => {
                &&& post.error is None
                &&& if pre.fixed_done < fixed_count(pre.mode) {
                    &&& post.parts@ == with_part(pre.parts@, text)
                    &&& post.fixed_done == pre.fixed_done + 1
                    &&& post.untracked == pre.untracked
                    &&& post.untracked_done == pre.untracked_done
                } else if pre.untracked is None {
                    &&& post.parts@ == pre.parts@
                    &&& post.fixed_done == pre.fixed_done
                    &&& post.untracked matches Some(paths) && views(paths@) == untracked_paths(
                        text@,
                    )
                    &&& post.untracked_done == 0
                } else {
                    &&& post.parts@ == with_part(pre.parts@, text)
                    &&& post.fixed_done == pre.fixed_done
                    &&& post.untracked == pre.untracked
                    &&& post.untracked_done == pre.untracked_done + 1
                }
            },
        }
    }

    /// Start computing the diff for `mode`, with untracked files when asked.
    pub fn new(mode: DiffMode, include_untracked: bool) -> (r: DiffRun)
        ensures
            r.is_fresh(mode, include_untracked),
    {
        DiffRun {
            mode,
            include_untracked,
            parts: Vec::new(),
            fixed_done: 0,
            untracked: None,
            untracked_done: 0,
            error: None,
        }
    }

    /// The invocation the run waits for, or nothing once it is done.
    pub fn pending(&self) -> (r: Option<GitInvocation>)
        requires
            self.wf(),
        ensures
            r is None <==> self.is_done(),
            r matches Some(inv) ==> views(inv.args@) == self.pending_args() && inv.allow_exit_1
                == !self.awaits_status(),
    {
        if self.error.is_some() {
            return None;
        }
        let count: usize = match self.mode {
            DiffMode::All => 2,
            _ => 1,
        };
        let none: Vec<String> = Vec::new();
        if self.fixed_done < count {
            let base = match self.mode {
                DiffMode::Worktree => vec![String::from_str("diff")],
                DiffMode::Staged => vec![String::from_str("diff"), String::from_str("--staged")],
                DiffMode::All => if self.fixed_done == 0 {
                    vec![String::from_str("diff")]
                } else {
                    vec![String::from_str("diff"), String::from_str("--staged")]
                },
            };
            let inv = git_invocation(base, &none, true);
            proof {
                assert(views(inv.args@) =~= self.pending_args());
            }
            return Some(inv);
        }
        if !self.include_untracked {
            return None;
        }
        match &self.untracked {
            None => {
                let base = vec![
                    String::from_str("status"),
                    String::from_str("--porcelain=v1"),
                    String::from_str("-z"),
                ];
                let inv = git_invocation(base, &none, false);
                proof {
                    assert(views(inv.args@) =~= self.pending_args());
                }
                Some(inv)
            },
            Some(paths) => {
                if self.untracked_done >= paths.len() {
                    return None;
                }
                let base = vec![
                    String::from_str("diff"),
                    String::from_str("--no-index"),
                    String::from_str("--"),
                    String::from_str("/dev/null"),
                ];
                let path = vec![paths[self.untracked_done].clone()];
                let inv = git_invocation(base, &path, true);
                proof {
                    assert(views(inv.args@) =~= self.pending_args());
                }
                Some(inv)
            },
        }
    }

    /// Take the outcome of the pending invocation. A failure ends the run;
    /// a status scan records the untracked paths; a diff output is kept
    /// unless blank.
    pub fn advance(&mut self, outcome: Result<String, GitError>)
        requires
            old(self).wf(),
            !old(self).is_done(),
        ensures
            final(self).wf(),
            DiffRun::advanced(*old(self), outcome, *final(self)),
    {
        match outcome {
            Err(e) => {
                self.error = Some(e);
            },
            Ok(text) => {
                let count: usize = match self.mode {
                    DiffMode::All => 2,
                    _ => 1,
                };
                if self.fixed_done < count {
                    if !blank(text.as_str()) {
                        self.parts.push(text);
                    }
                    self.fixed_done = self.fixed_done + 1;
                } else if self.untracked.is_none() {
                    self.untracked = Some(untracked_files(text.as_str()));
                    self.untracked_done = 0;
                } else {
                    let n = match &self.untracked {
                        Some(p) => p.len(),
                        None => 0,
                    };
                    assert(self.untracked_done < n);
                    if !blank(text.as_str()) {
                        self.parts.push(text);
                    }
                    self.untracked_done = self.untracked_done + 1;
                }
            },
        }
    }

    /// The diff text of a finished run, or the failure that ended it.
    pub fn into_text(self) -> (r: Result<String, GitError>)
        requires
            self.wf(),
            self.is_done(),
        ensures
            match self.error {
                Some(e) => r == Err::<String, GitError>(e),
                None => r matches Ok(text) && text@ == self.text(),
            },
    {
        match self.error {
            Some(e) => Err(e),
            None => {
                let text = join_text(&self.parts, "\n");
                proof {
                    reveal_strlit("\n");
                    assert("\n"@ =~= seq!['\n']);
                }
                Ok(text)
            },
        }
    }
}

} // verus!
