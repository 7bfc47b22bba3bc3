//! The typed command vocabulary between the verified engine and its
//! unverified runner. The engine never launches a process itself: it hands
//! out a `Directive` (run a command, pause, or probe the filesystem) and is
//! fed an `Outcome`. A ghost model of the local working copy — current
//! branch and stash depth — gives the rollback laws their meaning.

use vstd::prelude::*;
use crate::types::SyncResult;

verus! {

/// One external version-control or remote-repository command, as data.
#[derive(Debug, Clone)]
pub enum VcsRequest {
    /// Working-tree dirtiness query; dirty when its output is non-empty.
    StatusPorcelain { path: String },
    /// Name of the branch currently checked out.
    CurrentBranch { path: String },
    /// Commits on the local branch missing from its remote counterpart;
    /// any output means unpushed work exists.
    UnpushedCommits { path: String, branch: String },
    /// Save the working tree into a stash entry.
    StashPush { path: String },
    /// Restore the most recent stash entry.
    StashPop { path: String },
    /// Switch the working tree to `branch`.
    Checkout { path: String, branch: String },
    /// Fast-forward-only pull of the current branch.
    PullFastForwardOnly { path: String },
    /// Fetch from the default remote.
    Fetch { path: String },
    /// Hard-reset the working tree to `reference`.
    ResetHard { path: String, reference: String },
    /// How many commits `owner/name`'s branch is behind the upstream branch.
    RemoteCommitsBehind {
        owner: String,
        name: String,
        branch: String,
        upstream_owner: String,
        upstream_branch: String,
    },
    /// Fast-forward the fork's branch from its source repository, remotely.
    RemoteSync {
        owner: String,
        name: String,
        source_owner: String,
        source_name: String,
        branch: String,
    },
    /// Clone `owner/name` into `dest`.
    RemoteClone { owner: String, name: String, dest: String },
    /// Archive the repository on the remote side.
    RemoteArchive { owner: String, name: String },
    /// Delete the repository on the remote side.
    RemoteDelete { owner: String, name: String },
    /// Remove a local clone directory.
    RemoveLocalDir { path: String },
    /// Create the parent directory of `path` if missing.
    EnsureParentDir { path: String },
}

/// Ghost image of a `VcsRequest`.
pub ghost enum ReqV {
    StatusPorcelain { path: Seq<char> },
    CurrentBranch { path: Seq<char> },
    UnpushedCommits { path: Seq<char>, branch: Seq<char> },
    StashPush { path: Seq<char> },
    StashPop { path: Seq<char> },
    Checkout { path: Seq<char>, branch: Seq<char> },
    PullFastForwardOnly { path: Seq<char> },
    Fetch { path: Seq<char> },
    ResetHard { path: Seq<char>, reference: Seq<char> },
    RemoteCommitsBehind {
        owner: Seq<char>,
        name: Seq<char>,
        branch: Seq<char>,
        upstream_owner: Seq<char>,
        upstream_branch: Seq<char>,
    },
    RemoteSync {
        owner: Seq<char>,
        name: Seq<char>,
        source_owner: Seq<char>,
        source_name: Seq<char>,
        branch: Seq<char>,
    },
    RemoteClone { owner: Seq<char>, name: Seq<char>, dest: Seq<char> },
    RemoteArchive { owner: Seq<char>, name: Seq<char> },
    RemoteDelete { owner: Seq<char>, name: Seq<char> },
    RemoveLocalDir { path: Seq<char> },
    EnsureParentDir { path: Seq<char> },
}

impl View for VcsRequest {
    type V = ReqV;

    open spec fn view(&self) -> ReqV {
        match self {
            VcsRequest::StatusPorcelain { path } => ReqV::StatusPorcelain { path: path@ },
            VcsRequest::CurrentBranch { path } => ReqV::CurrentBranch { path: path@ },
            VcsRequest::UnpushedCommits { path, branch } => ReqV::UnpushedCommits {
                path: path@,
                branch: branch@,
            },
            VcsRequest::StashPush { path } => ReqV::StashPush { path: path@ },
            VcsRequest::StashPop { path } => ReqV::StashPop { path: path@ },
            VcsRequest::Checkout { path, branch } => ReqV::Checkout {
                path: path@,
                branch: branch@,
            },
            VcsRequest::PullFastForwardOnly { path } => ReqV::PullFastForwardOnly {
                path: path@,
            },
            VcsRequest::Fetch { path } => ReqV::Fetch { path: path@ },
            VcsRequest::ResetHard { path, reference } => ReqV::ResetHard {
                path: path@,
                reference: reference@,
            },
            VcsRequest::RemoteCommitsBehind { owner, name, branch, upstream_owner, upstream_branch } =>
                ReqV::RemoteCommitsBehind {
                    owner: owner@,
                    name: name@,
                    branch: branch@,
                    upstream_owner: upstream_owner@,
                    upstream_branch: upstream_branch@,
                },
            VcsRequest::RemoteSync { owner, name, source_owner, source_name, branch } =>
                ReqV::RemoteSync {
                    owner: owner@,
                    name: name@,
                    source_owner: source_owner@,
                    source_name: source_name@,
                    branch: branch@,
                },
            VcsRequest::RemoteClone { owner, name, dest } => ReqV::RemoteClone {
                owner: owner@,
                name: name@,
                dest: dest@,
            },
            VcsRequest::RemoteArchive { owner, name } => ReqV::RemoteArchive {
                owner: owner@,
                name: name@,
            },
            VcsRequest::RemoteDelete { owner, name } => ReqV::RemoteDelete {
                owner: owner@,
                name: name@,
            },
            VcsRequest::RemoveLocalDir { path } => ReqV::RemoveLocalDir { path: path@ },
            VcsRequest::EnsureParentDir { path } => ReqV::EnsureParentDir { path: path@ },
        }
    }
}

/// Whether a request only observes state, local or remote.
pub open spec fn reads_only(r: ReqV) -> bool {
    ||| r is StatusPorcelain
    ||| r is CurrentBranch
    ||| r is UnpushedCommits
    ||| r is RemoteCommitsBehind
}

/// What a worker feeds back for the directive it just carried out.
#[derive(Debug)]
pub enum Outcome {
    /// The command ran to completion with this exit disposition and captured
    /// output.
    Ran { success: bool, stdout: String, stderr: String },
    /// The command could not be launched at all.
    NotRun { message: String },
    /// A requested pause has elapsed.
    Elapsed,
    /// Answer to a filesystem probe.
    LocalExists(bool),
}

/// Ghost image of an `Outcome`.
pub ghost enum OutcomeV {
    Ran { success: bool, stdout: Seq<char>, stderr: Seq<char> },
    NotRun { message: Seq<char> },
    Elapsed,
    LocalExists(bool),
}

impl View for Outcome {
    type V = OutcomeV;

    open spec fn view(&self) -> OutcomeV {
        match self {
            Outcome::Ran { success, stdout, stderr } => OutcomeV::Ran {
                success: *success,
                stdout: stdout@,
                stderr: stderr@,
            },
            Outcome::NotRun { message } => OutcomeV::NotRun { message: message@ },
            Outcome::Elapsed => OutcomeV::Elapsed,
            Outcome::LocalExists(b) => OutcomeV::LocalExists(*b),
        }
    }
}

/// Whether the outcome is a completed, successful command.
pub open spec fn ok_of(o: OutcomeV) -> bool {
    o matches OutcomeV::Ran { success: true, .. }
}

/// What a machine asks its runner to do next.
#[derive(Debug)]
pub enum Directive {
    /// Launch this command and feed back `Ran` or `NotRun`.
    Run(VcsRequest),
    /// Sleep this many milliseconds and feed back `Elapsed`.
    Pause(u64),
    /// Report whether this path exists, as `LocalExists`.
    CheckLocal(String),
}

/// Ghost image of a `Directive`.
pub ghost enum DirectiveV {
    Run(ReqV),
    Pause(u64),
    CheckLocal(Seq<char>),
}

impl View for Directive {
    type V = DirectiveV;

    open spec fn view(&self) -> DirectiveV {
        match self {
            Directive::Run(r) => DirectiveV::Run(r@),
            Directive::Pause(ms) => DirectiveV::Pause(*ms),
            Directive::CheckLocal(p) => DirectiveV::CheckLocal(p@),
        }
    }
}

/// The spec-level image of an optional directive.
pub open spec fn dir_view(d: Option<Directive>) -> Option<DirectiveV> {
    match d {
        Some(dir) => Some(dir@),
        None => None,
    }
}

/// One advancement of a machine: progress events to forward, and what to do
/// next. `directive == None` means the operation has finished.
#[derive(Debug)]
pub struct StepResult {
    pub events: Vec<SyncResult>,
    pub directive: Option<Directive>,
}

/// The observable local working-copy state the rollback laws speak about:
/// which branch is checked out and how deep the stash is.
pub ghost struct TreeV {
    pub branch: Seq<char>,
    pub stash: nat,
}

/// The effect of one completed command on the working copy: a successful
/// stash push deepens the stash, a successful pop shallows it, a successful
/// checkout moves the branch; nothing else moves either.
pub open spec fn apply_cmd(t: TreeV, r: ReqV, ok: bool) -> TreeV {
    if !ok {
        t
    } else {
        match r {
            ReqV::StashPush { .. } => TreeV { branch: t.branch, stash: t.stash + 1 },
            ReqV::StashPop { .. } => TreeV {
                branch: t.branch,
                stash: if t.stash > 0 { (t.stash - 1) as nat } else { 0 },
            },
            ReqV::Checkout { branch, .. } => TreeV { branch, stash: t.stash },
            _ => t,
        }
    }
}

/// The working copy after a history of completed commands, oldest first.
pub open spec fn run_tree(t0: TreeV, h: Seq<(ReqV, bool)>) -> TreeV
    decreases h.len(),
{
    if h.len() == 0 {
        t0
    } else {
        apply_cmd(run_tree(t0, h.drop_last()), h.last().0, h.last().1)
    }
}

/// Appending one completed command folds as one `apply_cmd`.
pub proof fn lemma_run_tree_push(t0: TreeV, h: Seq<(ReqV, bool)>, p: (ReqV, bool))
    ensures
        run_tree(t0, h.push(p)) == apply_cmd(run_tree(t0, h), p.0, p.1),
{
    assert(h.push(p).drop_last() =~= h);
    assert(h.push(p).last() == p);
}

} // verus!
