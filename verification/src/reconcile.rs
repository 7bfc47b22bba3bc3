//! The per-fork reconciliation state machine for the sync operation. It
//! drives one fork to a terminal `Synced`, `Skipped` or `Failed` status,
//! issuing one directive at a time and consuming the outcome the runner
//! feeds back. The machine keeps a ghost history of every completed command
//! so that the safety laws — nothing is touched before the unpushed-commits
//! check, and every fatal failure after a mutation rolls the working copy
//! back — are stated and proved over the actual command trace.

use vstd::prelude::*;
use vstd::string::*;
use crate::invoke::{
    apply_cmd, dir_view, ok_of, reads_only, run_tree, Directive, DirectiveV, Outcome, OutcomeV,
    ReqV, StepResult, TreeV, VcsRequest,
};
use crate::invoke::lemma_run_tree_push;
use crate::strings::{
    has_substring, parse_u32, parse_u32_spec, str_contains, trim_chars, trim_str,
    truncate_error, truncate_reason,
};
use crate::types::{events_view, EventV, Fork, ForkV, StatusV, SyncJob, SyncResult, SyncStatus};

verus! {

/// Where a sync run stands: which command or pause it is waiting on.
#[derive(Debug, Clone, Copy, PartialEq, Eq, Structural)]
pub enum SyncStep {
    /// Constructed; nothing issued yet.
    Start,
    /// Dry run: waiting out the rehearsal pause.
    DryWait,
    /// Waiting for the local-clone existence probe.
    AwaitExists,
    /// No local clone: waiting for the commits-behind query.
    AwaitBehindRemote,
    /// No local clone: waiting for the remote-side sync.
    AwaitRemoteSyncRemote,
    /// Local clone: waiting for the commits-behind query.
    AwaitBehindLocal,
    /// Waiting for the working-tree dirtiness query.
    AwaitStatus,
    /// Waiting for the current-branch query.
    AwaitBranch,
    /// Waiting for the unpushed-commits query.
    AwaitUnpushed,
    /// Waiting for the stash push.
    AwaitStash,
    /// Waiting for the checkout of the default branch.
    AwaitCheckout,
    /// Waiting for the remote-side sync.
    AwaitSync,
    /// Sync failed: waiting for the rollback checkout of the original branch.
    AwaitRollbackCheckout,
    /// Checkout failed: waiting for the rollback stash pop.
    AwaitPopCheckoutFailed,
    /// Sync failed: waiting for the rollback stash pop.
    AwaitPopSyncFailed,
    /// Waiting for the local fast-forward pull.
    AwaitPull,
    /// Pull rejected: waiting for the fallback fetch.
    AwaitFetch,
    /// Pull rejected: waiting for the hard reset to the remote tip.
    AwaitReset,
    /// Waiting for the best-effort checkout back to the original branch.
    AwaitRestoreCheckout,
    /// Waiting for the best-effort stash pop.
    AwaitRestorePop,
    /// A terminal status has been emitted.
    Finished,
}

// Spec-level request builders over the fork snapshot.

pub open spec fn req_behind(f: ForkV) -> ReqV {
    ReqV::RemoteCommitsBehind {
        owner: f.owner,
        name: f.name,
        branch: f.default_branch,
        upstream_owner: f.parent_owner,
        upstream_branch: f.default_branch,
    }
}

pub open spec fn req_status(f: ForkV) -> ReqV {
    ReqV::StatusPorcelain { path: f.local_path }
}

pub open spec fn req_branch(f: ForkV) -> ReqV {
    ReqV::CurrentBranch { path: f.local_path }
}

pub open spec fn req_unpushed(f: ForkV) -> ReqV {
    ReqV::UnpushedCommits { path: f.local_path, branch: f.default_branch }
}

pub open spec fn req_stash(f: ForkV) -> ReqV {
    ReqV::StashPush { path: f.local_path }
}

pub open spec fn req_pop(f: ForkV) -> ReqV {
    ReqV::StashPop { path: f.local_path }
}

pub open spec fn req_checkout(f: ForkV, branch: Seq<char>) -> ReqV {
    ReqV::Checkout { path: f.local_path, branch: branch }
}

pub open spec fn req_pull(f: ForkV) -> ReqV {
    ReqV::PullFastForwardOnly { path: f.local_path }
}

pub open spec fn req_fetch(f: ForkV) -> ReqV {
    ReqV::Fetch { path: f.local_path }
}

pub open spec fn req_reset(f: ForkV) -> ReqV {
    ReqV::ResetHard { path: f.local_path, reference: "origin/"@ + f.default_branch }
}

pub open spec fn req_sync(f: ForkV) -> ReqV {
    ReqV::RemoteSync {
        owner: f.owner,
        name: f.name,
        source_owner: f.parent_owner,
        source_name: f.parent_name,
        branch: f.default_branch,
    }
}

/// The captured standard output of a completed command, empty otherwise.
pub open spec fn stdout_of(o: OutcomeV) -> Seq<char> {
    match o {
        OutcomeV::Ran { stdout, .. } => stdout,
        _ => Seq::empty(),
    }
}

/// The captured standard error of a completed command, empty otherwise.
pub open spec fn stderr_of(o: OutcomeV) -> Seq<char> {
    match o {
        OutcomeV::Ran { stderr, .. } => stderr,
        _ => Seq::empty(),
    }
}

/// The launch-failure message, empty otherwise.
pub open spec fn msg_of(o: OutcomeV) -> Seq<char> {
    match o {
        OutcomeV::NotRun { message } => message,
        _ => Seq::empty(),
    }
}

/// The commits-behind count read from a completed query: the trimmed output
/// parsed as a decimal number, `None` when the query failed or did not parse.
pub open spec fn behind_from(o: OutcomeV) -> Option<u32> {
    if ok_of(o) {
        parse_u32_spec(trim_chars(stdout_of(o)))
    } else {
        None
    }
}

/// What one advancement of the machine must produce.
pub ghost struct SyncPostV {
    pub step: SyncStep,
    pub cloned: bool,
    pub dirty: bool,
    pub stashed: bool,
    pub on_default: bool,
    pub original_branch: Seq<char>,
    pub behind: Option<u32>,
    pub terminal: Option<StatusV>,
    pub events: Seq<EventV>,
    pub directive: Option<DirectiveV>,
}

/// Drives one fork through the sync operation.
pub struct SyncMachine {
    pub job: SyncJob,
    pub dry_run: bool,
    pub step: SyncStep,
    pub cloned: bool,
    pub dirty: bool,
    pub stashed: bool,
    pub on_default: bool,
    pub original_branch: String,
    pub behind: Option<u32>,
    /// Completed commands with their success, oldest first.
    pub hist: Ghost<Seq<(ReqV, bool)>>,
    /// The terminal status emitted, once finished.
    pub terminal: Ghost<Option<StatusV>>,
    /// Whether a successful checkout moved the tree to the default branch
    /// and no later successful checkout moved it back.
    pub at_default: Ghost<bool>,
    /// Whether a successful stash push has not yet been popped successfully.
    pub stash_live: Ghost<bool>,
    /// Whether every rollback command issued so far succeeded.
    pub rollback_ok: Ghost<bool>,
}

impl SyncMachine {
    /// The post-state carried over unchanged.
    pub open spec fn carried(self) -> SyncPostV {
        SyncPostV {
            step: self.step,
            cloned: self.cloned,
            dirty: self.dirty,
            stashed: self.stashed,
            on_default: self.on_default,
            original_branch: self.original_branch@,
            behind: self.behind,
            terminal: self.terminal@,
            events: Seq::empty(),
            directive: None,
        }
    }

    /// A terminal transition: one status event for this job, nothing further.
    pub open spec fn to_terminal(self, st: StatusV) -> SyncPostV {
        SyncPostV {
            step: SyncStep::Finished,
            terminal: Some(st),
            events: seq![EventV::StatusUpdate(self.job.index as int, st)],
            directive: None,
            ..self.carried()
        }
    }

    /// The fork this run works on.
    pub open spec fn f(self) -> ForkV {
        self.job.fork@
    }

    /// Entering the stash-or-checkout-or-sync part once the unpushed check
    /// passed (and, when dirty, the stash completed).
    pub open spec fn to_mutate(self) -> SyncPostV {
        if !self.on_default {
            SyncPostV {
                step: SyncStep::AwaitCheckout,
                directive: Some(DirectiveV::Run(req_checkout(self.f(), self.f().default_branch))),
                ..self.carried()
            }
        } else {
            SyncPostV {
                step: SyncStep::AwaitSync,
                events: seq![EventV::StatusUpdate(self.job.index as int, StatusV::Syncing)],
                directive: Some(DirectiveV::Run(req_sync(self.f()))),
                ..self.carried()
            }
        }
    }

    /// Entering the best-effort restore part once the local pull (or its
    /// fallback) is done.
    pub open spec fn to_restore(self) -> SyncPostV {
        if !self.on_default {
            SyncPostV {
                step: SyncStep::AwaitRestoreCheckout,
                events: seq![EventV::StatusUpdate(self.job.index as int, StatusV::Restoring)],
                directive: Some(DirectiveV::Run(req_checkout(self.f(), self.original_branch@))),
                ..self.carried()
            }
        } else if self.stashed {
            SyncPostV {
                step: SyncStep::AwaitRestorePop,
                events: seq![EventV::StatusUpdate(self.job.index as int, StatusV::Restoring)],
                directive: Some(DirectiveV::Run(req_pop(self.f()))),
                ..self.carried()
            }
        } else {
            self.to_terminal(StatusV::Synced(self.behind))
        }
    }

    /// The request whose outcome a machine at this step consumes, if any.
    pub open spec fn consumed_req(self) -> Option<ReqV> {
        match self.step {
            SyncStep::AwaitBehindRemote => Some(req_behind(self.f())),
            SyncStep::AwaitRemoteSyncRemote => Some(req_sync(self.f())),
            SyncStep::AwaitBehindLocal => Some(req_behind(self.f())),
            SyncStep::AwaitStatus => Some(req_status(self.f())),
            SyncStep::AwaitBranch => Some(req_branch(self.f())),
            SyncStep::AwaitUnpushed => Some(req_unpushed(self.f())),
            SyncStep::AwaitStash => Some(req_stash(self.f())),
            SyncStep::AwaitCheckout => Some(req_checkout(self.f(), self.f().default_branch)),
            SyncStep::AwaitSync => Some(req_sync(self.f())),
            SyncStep::AwaitRollbackCheckout => Some(req_checkout(self.f(), self.original_branch@)),
            SyncStep::AwaitPopCheckoutFailed => Some(req_pop(self.f())),
            SyncStep::AwaitPopSyncFailed => Some(req_pop(self.f())),
            SyncStep::AwaitPull => Some(req_pull(self.f())),
            SyncStep::AwaitFetch => Some(req_fetch(self.f())),
            SyncStep::AwaitReset => Some(req_reset(self.f())),
            SyncStep::AwaitRestoreCheckout => Some(req_checkout(self.f(), self.original_branch@)),
            SyncStep::AwaitRestorePop => Some(req_pop(self.f())),
            _ => None,
        }
    }

    /// Whether, after consuming `o`, a successful checkout has moved the tree
    /// to the default branch with no later successful checkout away from it.
    pub open spec fn at_default_after(self, o: OutcomeV) -> bool {
        match self.step {
            SyncStep::AwaitCheckout => if ok_of(o) {
                true
            } else {
                self.at_default@
            },
            SyncStep::AwaitRollbackCheckout | SyncStep::AwaitRestoreCheckout => if ok_of(o) {
                false
            } else {
                self.at_default@
            },
            _ => self.at_default@,
        }
    }

    /// Whether, after consuming `o`, a successful stash push has not yet been
    /// popped successfully.
    pub open spec fn stash_live_after(self, o: OutcomeV) -> bool {
        match self.step {
            SyncStep::AwaitStash => if ok_of(o) {
                true
            } else {
                self.stash_live@
            },
            SyncStep::AwaitPopCheckoutFailed | SyncStep::AwaitPopSyncFailed
                | SyncStep::AwaitRestorePop => if ok_of(o) {
                false
            } else {
                self.stash_live@
            },
            _ => self.stash_live@,
        }
    }

    /// Whether, after consuming `o`, every rollback command so far succeeded.
    /// Only the rollback commands — the checkout back and the pops on the
    /// failure paths — can clear it; best-effort restore failures do not.
    pub open spec fn rollback_ok_after(self, o: OutcomeV) -> bool {
        match self.step {
            SyncStep::AwaitRollbackCheckout | SyncStep::AwaitPopCheckoutFailed
                | SyncStep::AwaitPopSyncFailed => if ok_of(o) {
                self.rollback_ok@
            } else {
                false
            },
            _ => self.rollback_ok@,
        }
    }

    /// The full transition relation of one `step` call: what the machine at
    /// `self`, fed `o`, becomes, emits and asks for next. This is the
    /// machine's contract; the body of `step` merely realises it.
    pub open spec fn step_spec(self, o: OutcomeV) -> SyncPostV {
        match self.step {
            SyncStep::DryWait => self.to_terminal(StatusV::Synced(None)),
            SyncStep::AwaitExists => {
                let exists = (o == OutcomeV::LocalExists(true));
                SyncPostV {
                    step: if exists { SyncStep::AwaitBehindLocal } else { SyncStep::AwaitBehindRemote },
                    cloned: exists,
                    directive: Some(DirectiveV::Run(req_behind(self.f()))),
                    ..self.carried()
                }
            },
            SyncStep::AwaitBehindRemote => SyncPostV {
                step: SyncStep::AwaitRemoteSyncRemote,
                behind: behind_from(o),
                events: seq![EventV::StatusUpdate(self.job.index as int, StatusV::Syncing)],
                directive: Some(DirectiveV::Run(req_sync(self.f()))),
                ..self.carried()
            },
            SyncStep::AwaitRemoteSyncRemote => {
                if ok_of(o) {
                    self.to_terminal(StatusV::Synced(self.behind))
                } else if o is Ran {
                    if has_substring(stderr_of(o), "already up-to-date"@) || stdout_of(o).len() > 0 {
                        self.to_terminal(StatusV::Synced(Some(0)))
                    } else {
                        self.to_terminal(StatusV::Failed(truncate_reason(stderr_of(o))))
                    }
                } else {
                    self.to_terminal(StatusV::Failed(truncate_reason(msg_of(o))))
                }
            },
            SyncStep::AwaitBehindLocal => SyncPostV {
                step: SyncStep::AwaitStatus,
                behind: behind_from(o),
                directive: Some(DirectiveV::Run(req_status(self.f()))),
                ..self.carried()
            },
            SyncStep::AwaitStatus => {
                if o is Ran {
                    SyncPostV {
                        step: SyncStep::AwaitBranch,
                        dirty: stdout_of(o).len() > 0,
                        directive: Some(DirectiveV::Run(req_branch(self.f()))),
                        ..self.carried()
                    }
                } else {
                    self.to_terminal(StatusV::Failed(truncate_reason(msg_of(o))))
                }
            },
            SyncStep::AwaitBranch => {
                if ok_of(o) {
                    let ob = trim_chars(stdout_of(o));
                    SyncPostV {
                        step: SyncStep::AwaitUnpushed,
                        original_branch: ob,
                        on_default: ob == self.f().default_branch,
                        directive: Some(DirectiveV::Run(req_unpushed(self.f()))),
                        ..self.carried()
                    }
                } else {
                    self.to_terminal(StatusV::Failed("get branch failed"@))
                }
            },
            SyncStep::AwaitUnpushed => {
                if stdout_of(o).len() > 0 {
                    self.to_terminal(StatusV::Skipped("unpushed commits"@))
                } else if self.dirty {
                    SyncPostV {
                        step: SyncStep::AwaitStash,
                        events: seq![EventV::StatusUpdate(self.job.index as int, StatusV::Stashing)],
                        directive: Some(DirectiveV::Run(req_stash(self.f()))),
                        ..self.carried()
                    }
                } else {
                    self.to_mutate()
                }
            },
            SyncStep::AwaitStash => {
                if ok_of(o) {
                    SyncPostV { stashed: true, ..self.to_mutate() }
                } else {
                    self.to_terminal(StatusV::Failed("stash failed"@))
                }
            },
            SyncStep::AwaitCheckout => {
                if ok_of(o) {
                    SyncPostV {
                        step: SyncStep::AwaitSync,
                        events: seq![EventV::StatusUpdate(self.job.index as int, StatusV::Syncing)],
                        directive: Some(DirectiveV::Run(req_sync(self.f()))),
                        ..self.carried()
                    }
                } else if self.stashed {
                    SyncPostV {
                        step: SyncStep::AwaitPopCheckoutFailed,
                        directive: Some(DirectiveV::Run(req_pop(self.f()))),
                        ..self.carried()
                    }
                } else {
                    self.to_terminal(StatusV::Failed("checkout failed"@))
                }
            },
            SyncStep::AwaitPopCheckoutFailed => self.to_terminal(StatusV::Failed("checkout failed"@)),
            SyncStep::AwaitSync => {
                if ok_of(o) {
                    SyncPostV {
                        step: SyncStep::AwaitPull,
                        events: seq![EventV::StatusUpdate(self.job.index as int, StatusV::Fetching)],
                        directive: Some(DirectiveV::Run(req_pull(self.f()))),
                        ..self.carried()
                    }
                } else if !self.on_default {
                    SyncPostV {
                        step: SyncStep::AwaitRollbackCheckout,
                        directive: Some(DirectiveV::Run(req_checkout(self.f(), self.original_branch@))),
                        ..self.carried()
                    }
                } else if self.stashed {
                    SyncPostV {
                        step: SyncStep::AwaitPopSyncFailed,
                        directive: Some(DirectiveV::Run(req_pop(self.f()))),
                        ..self.carried()
                    }
                } else {
                    self.to_terminal(StatusV::Failed("sync failed"@))
                }
            },
            SyncStep::AwaitRollbackCheckout => {
                if self.stashed {
                    SyncPostV {
                        step: SyncStep::AwaitPopSyncFailed,
                        directive: Some(DirectiveV::Run(req_pop(self.f()))),
                        ..self.carried()
                    }
                } else {
                    self.to_terminal(StatusV::Failed("sync failed"@))
                }
            },
            SyncStep::AwaitPopSyncFailed => self.to_terminal(StatusV::Failed("sync failed"@)),
            SyncStep::AwaitPull => {
                if ok_of(o) {
                    self.to_restore()
                } else {
                    SyncPostV {
                        step: SyncStep::AwaitFetch,
                        directive: Some(DirectiveV::Run(req_fetch(self.f()))),
                        ..self.carried()
                    }
                }
            },
            SyncStep::AwaitFetch => SyncPostV {
                step: SyncStep::AwaitReset,
                directive: Some(DirectiveV::Run(req_reset(self.f()))),
                ..self.carried()
            },
            SyncStep::AwaitReset => self.to_restore(),
            SyncStep::AwaitRestoreCheckout => {
                if self.stashed {
                    SyncPostV {
                        step: SyncStep::AwaitRestorePop,
                        events: seq![EventV::StatusUpdate(self.job.index as int, StatusV::Restoring)],
                        directive: Some(DirectiveV::Run(req_pop(self.f()))),
                        ..self.carried()
                    }
                } else {
                    self.to_terminal(StatusV::Synced(self.behind))
                }
            },
            SyncStep::AwaitRestorePop => self.to_terminal(StatusV::Synced(self.behind)),
            _ => self.carried(),
        }
    }

    /// The working copy before the run, at stash depth `d`: on the branch the
    /// machine found checked out.
    pub open spec fn tree0(self, d: nat) -> TreeV {
        TreeV { branch: self.original_branch@, stash: d }
    }

    /// The working copy the history has produced, per the machine's flags.
    pub open spec fn tree_now(self, d: nat) -> TreeV {
        TreeV {
            branch: if self.at_default@ {
                self.f().default_branch
            } else {
                self.original_branch@
            },
            stash: (d + if self.stash_live@ { 1int } else { 0int }) as nat,
        }
    }

    /// The history, replayed from any stash depth, yields exactly the state
    /// the machine's flags claim.
    pub open spec fn tree_ok(self) -> bool {
        forall|d: nat| run_tree(self.tree0(d), self.hist@) == self.tree_now(d)
    }

    /// Every completed command so far only observed state.
    pub open spec fn reads_only_hist(self) -> bool {
        forall|i: int| 0 <= i < self.hist@.len() ==> reads_only(#[trigger] self.hist@[i].0)
    }

    /// Whether the machine awaits an outcome (it has been started and has not
    /// finished).
    pub open spec fn in_flight(self) -> bool {
        self.step != SyncStep::Start && self.step != SyncStep::Finished
    }

    /// The outcome variant a machine at this step may be fed.
    pub open spec fn accepts(self, o: OutcomeV) -> bool {
        match self.step {
            SyncStep::DryWait => o is Elapsed,
            SyncStep::AwaitExists => o is LocalExists,
            _ => o is Ran || o is NotRun,
        }
    }

    /// The machine's invariant, preserved by every step.
    pub closed spec fn wf(self) -> bool {
        &&& self.tree_ok()
        &&& ((self.step == SyncStep::Finished) <==> (self.terminal@ is Some))
        &&& (self.dry_run ==> self.step == SyncStep::Start || self.step == SyncStep::DryWait
            || self.step == SyncStep::Finished)
        &&& match self.step {
            SyncStep::Start | SyncStep::DryWait | SyncStep::AwaitExists => {
                &&& self.hist@.len() == 0
                &&& !self.at_default@
                &&& !self.stash_live@
                &&& !self.stashed
            },
            SyncStep::AwaitBehindRemote | SyncStep::AwaitBehindLocal | SyncStep::AwaitStatus
                | SyncStep::AwaitBranch | SyncStep::AwaitUnpushed | SyncStep::AwaitStash => {
                &&& self.reads_only_hist()
                &&& !self.at_default@
                &&& !self.stash_live@
                &&& !self.stashed
            },
            SyncStep::AwaitRemoteSyncRemote => {
                &&& !self.at_default@
                &&& !self.stash_live@
            },
            SyncStep::AwaitCheckout => {
                &&& !self.on_default
                &&& !self.at_default@
                &&& self.stash_live@ == self.stashed
            },
            SyncStep::AwaitSync | SyncStep::AwaitPull | SyncStep::AwaitFetch
                | SyncStep::AwaitReset => {
                &&& self.at_default@ == !self.on_default
                &&& self.stash_live@ == self.stashed
            },
            SyncStep::AwaitRollbackCheckout => {
                &&& !self.on_default
                &&& self.at_default@
                &&& self.stash_live@ == self.stashed
            },
            SyncStep::AwaitPopCheckoutFailed => {
                &&& !self.at_default@
                &&& self.stash_live@
                &&& self.stashed
            },
            SyncStep::AwaitPopSyncFailed => {
                &&& self.stash_live@
                &&& self.stashed
                &&& (self.rollback_ok@ ==> !self.at_default@)
            },
            SyncStep::AwaitRestoreCheckout => {
                &&& !self.on_default
                &&& self.at_default@
                &&& self.stash_live@ == self.stashed
            },
            SyncStep::AwaitRestorePop => {
                &&& self.stash_live@
                &&& self.stashed
            },
            SyncStep::Finished => {
                &&& (self.terminal@ matches Some(t) && t is Skipped ==> {
                    &&& self.reads_only_hist()
                    &&& !self.at_default@
                    &&& !self.stash_live@
                })
                &&& (self.terminal@ matches Some(t) && t is Failed && self.rollback_ok@ ==> {
                    &&& !self.at_default@
                    &&& !self.stash_live@
                })
            },
        }
    }

    /// Whether the run has emitted its terminal status.
    pub open spec fn finished(self) -> bool {
        self.step == SyncStep::Finished
    }

    /// The relation between one call's pre-state, outcome, post-state and
    /// results.
    pub open spec fn step_matches(
        pre: SyncMachine,
        o: OutcomeV,
        post: SyncMachine,
        evs: Seq<EventV>,
        dir: Option<DirectiveV>,
    ) -> bool {
        let p = pre.step_spec(o);
        &&& post.step == p.step
        &&& post.cloned == p.cloned
        &&& post.dirty == p.dirty
        &&& post.stashed == p.stashed
        &&& post.on_default == p.on_default
        &&& post.original_branch@ == p.original_branch
        &&& post.behind == p.behind
        &&& post.terminal@ == p.terminal
        &&& post.job == pre.job
        &&& post.dry_run == pre.dry_run
        &&& evs == p.events
        &&& dir == p.directive
        &&& post.hist@ == match pre.consumed_req() {
            Some(rq) => pre.hist@.push((rq, ok_of(o))),
            None => pre.hist@,
        }
        &&& post.at_default@ == pre.at_default_after(o)
        &&& post.stash_live@ == pre.stash_live_after(o)
        &&& post.rollback_ok@ == pre.rollback_ok_after(o)
    }

    /// Whether the run has emitted its terminal status, queryable at run time.
    pub fn is_finished(&self) -> (r: bool)
        ensures
            r == self.finished(),
    {
        match self.step {
            SyncStep::Finished => true,
            _ => false,
        }
    }

    /// A fresh machine for one job.
    pub fn new(job: SyncJob, dry_run: bool) -> (m: Self)
        ensures
            m.wf(),
            m.step == SyncStep::Start,
            m.job == job,
            m.dry_run == dry_run,
            !m.cloned,
            !m.dirty,
            !m.stashed,
            m.on_default,
            m.original_branch@ == Seq::<char>::empty(),
            m.behind is None,
            m.hist@ == Seq::<(ReqV, bool)>::empty(),
            m.terminal@ == Option::<StatusV>::None,
            !m.at_default@,
            !m.stash_live@,
            m.rollback_ok@,
    {
        SyncMachine {
            job,
            dry_run,
            step: SyncStep::Start,
            cloned: false,
            dirty: false,
            stashed: false,
            on_default: true,
            original_branch: String::new(),
            behind: None,
            hist: Ghost(Seq::empty()),
            terminal: Ghost(None),
            at_default: Ghost(false),
            stash_live: Ghost(false),
            rollback_ok: Ghost(true),
        }
    }

    /// Starts the run: announces `Checking`, then either rehearses (dry run)
    /// or probes for the local clone. A dry run never asks for a command or
    /// a probe, only a pause.
    pub fn start(&mut self) -> (r: StepResult)
        requires
            old(self).wf(),
            old(self).step == SyncStep::Start,
        ensures
            final(self).wf(),
            final(self).job == old(self).job,
            final(self).dry_run == old(self).dry_run,
            final(self).cloned == old(self).cloned,
            final(self).dirty == old(self).dirty,
            final(self).stashed == old(self).stashed,
            final(self).on_default == old(self).on_default,
            final(self).original_branch == old(self).original_branch,
            final(self).behind == old(self).behind,
            final(self).hist@ == old(self).hist@,
            final(self).terminal@ == old(self).terminal@,
            final(self).at_default@ == old(self).at_default@,
            final(self).stash_live@ == old(self).stash_live@,
            final(self).rollback_ok@ == old(self).rollback_ok@,
            events_view(r.events@) == seq![
                EventV::StatusUpdate(old(self).job.index as int, StatusV::Checking),
            ],
            old(self).dry_run ==> {
                &&& final(self).step == SyncStep::DryWait
                &&& dir_view(r.directive) == Some(DirectiveV::Pause(500))
            },
            !old(self).dry_run ==> {
                &&& final(self).step == SyncStep::AwaitExists
                &&& dir_view(r.directive) == Some(DirectiveV::CheckLocal(old(self).job.fork.local_path@))
            },
    {
        let idx = self.job.index;
        let events = one_status(idx, SyncStatus::Checking);
        if self.dry_run {
            self.step = SyncStep::DryWait;
            StepResult { events, directive: Some(Directive::Pause(500)) }
        } else {
            self.step = SyncStep::AwaitExists;
            let path = self.job.fork.local_path.clone();
            StepResult { events, directive: Some(Directive::CheckLocal(path)) }
        }
    }
}

/// A single status-update event for this job.
fn one_status(idx: usize, st: SyncStatus) -> (r: Vec<SyncResult>)
    ensures
        events_view(r@) == seq![EventV::StatusUpdate(idx as int, st@)],
{
    let mut v: Vec<SyncResult> = Vec::new();
    let ghost stv = st@;
    v.push(SyncResult::StatusUpdate(idx, st));
    proof {
        assert(events_view(v@) =~= seq![EventV::StatusUpdate(idx as int, stv)]);
    }
    v
}

/// No events.
fn no_events() -> (r: Vec<SyncResult>)
    ensures
        events_view(r@) == Seq::<EventV>::empty(),
{
    let v: Vec<SyncResult> = Vec::new();
    proof {
        assert(events_view(v@) =~= Seq::<EventV>::empty());
    }
    v
}

/// Histories of observations alone leave the working copy alone.
proof fn lemma_reads_identity(t0: TreeV, h: Seq<(ReqV, bool)>)
    requires
        forall|i: int| 0 <= i < h.len() ==> reads_only(#[trigger] h[i].0),
    ensures
        run_tree(t0, h) == t0,
    decreases h.len(),
{
    if h.len() > 0 {
        lemma_reads_identity(t0, h.drop_last());
    }
}

/// A history of observations stays one when an observation is appended.
proof fn lemma_reads_hist(pre: SyncMachine, post: SyncMachine, rq: ReqV, okb: bool)
    requires
        pre.reads_only_hist(),
        reads_only(rq),
        post.hist@ == pre.hist@.push((rq, okb)),
    ensures
        post.reads_only_hist(),
{
    assert forall|i: int| 0 <= i < post.hist@.len()
        implies reads_only(#[trigger] post.hist@[i].0) by {
        if i < pre.hist@.len() {
            assert(reads_only(pre.hist@[i].0));
            assert(post.hist@[i] == pre.hist@[i]);
        } else {
            assert(post.hist@[i] == (rq, okb));
        }
    }
}

/// A step that completes no command leaves the modelled working copy as the
/// flags already claimed.
proof fn lemma_tree_same(pre: SyncMachine, post: SyncMachine)
    requires
        pre.tree_ok(),
        post.hist@ == pre.hist@,
        post.job == pre.job,
        post.original_branch@ == pre.original_branch@,
        post.at_default@ == pre.at_default@,
        post.stash_live@ == pre.stash_live@,
    ensures
        post.tree_ok(),
{
    assert forall|d: nat| run_tree(post.tree0(d), post.hist@) == post.tree_now(d) by {
        assert(post.tree0(d) == pre.tree0(d));
        assert(run_tree(pre.tree0(d), pre.hist@) == pre.tree_now(d));
        assert(post.tree_now(d) == pre.tree_now(d));
    }
}

/// Appending a command that cannot move the tree keeps the flags honest.
proof fn lemma_tree_push_neutral(pre: SyncMachine, post: SyncMachine, rq: ReqV, okb: bool)
    requires
        pre.tree_ok(),
        post.hist@ == pre.hist@.push((rq, okb)),
        post.job == pre.job,
        post.original_branch@ == pre.original_branch@,
        post.at_default@ == pre.at_default@,
        post.stash_live@ == pre.stash_live@,
        !okb || (!(rq is StashPush) && !(rq is StashPop) && !(rq is Checkout)),
    ensures
        post.tree_ok(),
{
    assert forall|d: nat| run_tree(post.tree0(d), post.hist@) == post.tree_now(d) by {
        lemma_run_tree_push(post.tree0(d), pre.hist@, (rq, okb));
        assert(post.tree0(d) == pre.tree0(d));
        assert(run_tree(pre.tree0(d), pre.hist@) == pre.tree_now(d));
        assert(apply_cmd(pre.tree_now(d), rq, okb) == pre.tree_now(d));
        assert(post.tree_now(d) == pre.tree_now(d));
    }
}

/// Appending a successful stash push deepens the modelled stash by one.
proof fn lemma_tree_push_stash(pre: SyncMachine, post: SyncMachine)
    requires
        pre.tree_ok(),
        !pre.stash_live@,
        post.hist@ == pre.hist@.push((req_stash(pre.f()), true)),
        post.job == pre.job,
        post.original_branch@ == pre.original_branch@,
        post.at_default@ == pre.at_default@,
        post.stash_live@,
    ensures
        post.tree_ok(),
{
    assert forall|d: nat| run_tree(post.tree0(d), post.hist@) == post.tree_now(d) by {
        lemma_run_tree_push(post.tree0(d), pre.hist@, (req_stash(pre.f()), true));
        assert(post.tree0(d) == pre.tree0(d));
        assert(run_tree(pre.tree0(d), pre.hist@) == pre.tree_now(d));
        assert(apply_cmd(pre.tree_now(d), req_stash(pre.f()), true) == post.tree_now(d));
    }
}

/// Appending a stash pop, made while the modelled stash is deepened, returns
/// it to its original depth exactly when the pop succeeded.
proof fn lemma_tree_push_pop(pre: SyncMachine, post: SyncMachine, okb: bool)
    requires
        pre.tree_ok(),
        pre.stash_live@,
        post.hist@ == pre.hist@.push((req_pop(pre.f()), okb)),
        post.job == pre.job,
        post.original_branch@ == pre.original_branch@,
        post.at_default@ == pre.at_default@,
        post.stash_live@ == if okb { false } else { pre.stash_live@ },
    ensures
        post.tree_ok(),
{
    assert forall|d: nat| run_tree(post.tree0(d), post.hist@) == post.tree_now(d) by {
        lemma_run_tree_push(post.tree0(d), pre.hist@, (req_pop(pre.f()), okb));
        assert(post.tree0(d) == pre.tree0(d));
        assert(run_tree(pre.tree0(d), pre.hist@) == pre.tree_now(d));
        assert(apply_cmd(pre.tree_now(d), req_pop(pre.f()), okb) == post.tree_now(d));
    }
}

/// Appending a checkout moves the modelled branch exactly when it succeeded,
/// to the default branch or back to the original one.
proof fn lemma_tree_push_checkout(pre: SyncMachine, post: SyncMachine, b: Seq<char>, okb: bool)
    requires
        pre.tree_ok(),
        post.hist@ == pre.hist@.push((req_checkout(pre.f(), b), okb)),
        post.job == pre.job,
        post.original_branch@ == pre.original_branch@,
        post.stash_live@ == pre.stash_live@,
        if okb {
            (post.at_default@ && b == pre.f().default_branch)
                || (!post.at_default@ && b == pre.original_branch@)
        } else {
            post.at_default@ == pre.at_default@
        },
    ensures
        post.tree_ok(),
{
    assert forall|d: nat| run_tree(post.tree0(d), post.hist@) == post.tree_now(d) by {
        lemma_run_tree_push(post.tree0(d), pre.hist@, (req_checkout(pre.f(), b), okb));
        assert(post.tree0(d) == pre.tree0(d));
        assert(run_tree(pre.tree0(d), pre.hist@) == pre.tree_now(d));
        assert(apply_cmd(pre.tree_now(d), req_checkout(pre.f(), b), okb) == post.tree_now(d));
    }
}

// Executable request builders, each mirroring its spec-level form.

fn mk_behind(f: &Fork) -> (r: VcsRequest)
    ensures
        r@ == req_behind(f@),
{
    VcsRequest::RemoteCommitsBehind {
        owner: f.owner.clone(),
        name: f.name.clone(),
        branch: f.default_branch.clone(),
        upstream_owner: f.parent_owner.clone(),
        upstream_branch: f.default_branch.clone(),
    }
}

fn mk_status(f: &Fork) -> (r: VcsRequest)
    ensures
        r@ == req_status(f@),
{
    VcsRequest::StatusPorcelain { path: f.local_path.clone() }
}

fn mk_branch(f: &Fork) -> (r: VcsRequest)
    ensures
        r@ == req_branch(f@),
{
    VcsRequest::CurrentBranch { path: f.local_path.clone() }
}

fn mk_unpushed(f: &Fork) -> (r: VcsRequest)
    ensures
        r@ == req_unpushed(f@),
{
    VcsRequest::UnpushedCommits { path: f.local_path.clone(), branch: f.default_branch.clone() }
}

fn mk_stash(f: &Fork) -> (r: VcsRequest)
    ensures
        r@ == req_stash(f@),
{
    VcsRequest::StashPush { path: f.local_path.clone() }
}

fn mk_pop(f: &Fork) -> (r: VcsRequest)
    ensures
        r@ == req_pop(f@),
{
    VcsRequest::StashPop { path: f.local_path.clone() }
}

fn mk_checkout(f: &Fork, branch: &String) -> (r: VcsRequest)
    ensures
        r@ == req_checkout(f@, branch@),
{
    VcsRequest::Checkout { path: f.local_path.clone(), branch: branch.clone() }
}

fn mk_pull(f: &Fork) -> (r: VcsRequest)
    ensures
        r@ == req_pull(f@),
{
    VcsRequest::PullFastForwardOnly { path: f.local_path.clone() }
}

fn mk_fetch(f: &Fork) -> (r: VcsRequest)
    ensures
        r@ == req_fetch(f@),
{
    VcsRequest::Fetch { path: f.local_path.clone() }
}

fn mk_reset(f: &Fork) -> (r: VcsRequest)
    ensures
        r@ == req_reset(f@),
{
    let reference = "origin/".to_owned().concat(f.default_branch.as_str());
    VcsRequest::ResetHard { path: f.local_path.clone(), reference }
}

fn mk_sync(f: &Fork) -> (r: VcsRequest)
    ensures
        r@ == req_sync(f@),
{
    VcsRequest::RemoteSync {
        owner: f.owner.clone(),
        name: f.name.clone(),
        source_owner: f.parent_owner.clone(),
        source_name: f.parent_name.clone(),
        branch: f.default_branch.clone(),
    }
}

/// Whether the outcome is a completed, successful command.
fn outcome_ok(o: &Outcome) -> (r: bool)
    ensures
        r == ok_of(o@),
{
    match o {
        Outcome::Ran { success, .. } => *success,
        _ => false,
    }
}

/// Whether the outcome carries any standard output.
fn outcome_stdout_nonempty(o: &Outcome) -> (r: bool)
    ensures
        r == (stdout_of(o@).len() > 0),
{
    match o {
        Outcome::Ran { stdout, .. } => stdout.as_str().unicode_len() > 0,
        _ => false,
    }
}

/// The commits-behind count read from a completed query.
fn behind_of(o: &Outcome) -> (r: Option<u32>)
    ensures
        r == behind_from(o@),
{
    match o {
        Outcome::Ran { success, stdout, .. } => {
            if *success {
                let t = trim_str(stdout.as_str());
                parse_u32(t.as_str())
            } else {
                None
            }
        },
        _ => None,
    }
}

impl SyncMachine {
    /// Emits the terminal status for this job and closes the run.
    fn finish(&mut self, st: SyncStatus) -> (r: StepResult)
        ensures
            final(self).step == SyncStep::Finished,
            final(self).terminal@ == Some(st@),
            final(self).job == old(self).job,
            final(self).dry_run == old(self).dry_run,
            final(self).cloned == old(self).cloned,
            final(self).dirty == old(self).dirty,
            final(self).stashed == old(self).stashed,
            final(self).on_default == old(self).on_default,
            final(self).original_branch == old(self).original_branch,
            final(self).behind == old(self).behind,
            final(self).hist@ == old(self).hist@,
            final(self).at_default@ == old(self).at_default@,
            final(self).stash_live@ == old(self).stash_live@,
            final(self).rollback_ok@ == old(self).rollback_ok@,
            events_view(r.events@) == seq![
                EventV::StatusUpdate(old(self).job.index as int, st@),
            ],
            r.directive is None,
    {
        self.step = SyncStep::Finished;
        self.terminal = Ghost(Some(st@));
        let events = one_status(self.job.index, st);
        StepResult { events, directive: None }
    }

    /// Consumes the outcome of the directive last handed out and advances the
    /// run by one step, as the transition `step_spec` describes. A dry run is
    /// never asked to run a command or probe the filesystem.
    pub fn step(&mut self, o: Outcome) -> (r: StepResult)
        requires
            old(self).wf(),
            old(self).in_flight(),
            old(self).accepts(o@),
        ensures
            final(self).wf(),
            Self::step_matches(
                *old(self),
                o@,
                *final(self),
                events_view(r.events@),
                dir_view(r.directive),
            ),
            final(self).finished() == (old(self).step_spec(o@).step == SyncStep::Finished),
            old(self).dry_run ==> (match dir_view(r.directive) {
                Some(DirectiveV::Run(_)) => false,
                Some(DirectiveV::CheckLocal(_)) => false,
                _ => true,
            }),
    {
        match self.step {
            SyncStep::DryWait => self.st_dry_wait(o),
            SyncStep::AwaitExists => self.st_await_exists(o),
            SyncStep::AwaitBehindRemote => self.st_behind_remote(o),
            SyncStep::AwaitRemoteSyncRemote => self.st_remote_sync_remote(o),
            SyncStep::AwaitBehindLocal => self.st_behind_local(o),
            SyncStep::AwaitStatus => self.st_status(o),
            SyncStep::AwaitBranch => self.st_branch(o),
            SyncStep::AwaitUnpushed => self.st_unpushed(o),
            SyncStep::AwaitStash => self.st_stash(o),
            SyncStep::AwaitCheckout => self.st_checkout(o),
            SyncStep::AwaitPopCheckoutFailed => self.st_pop_checkout_failed(o),
            SyncStep::AwaitSync => self.st_sync(o),
            SyncStep::AwaitRollbackCheckout => self.st_rollback_checkout(o),
            SyncStep::AwaitPopSyncFailed => self.st_pop_sync_failed(o),
            SyncStep::AwaitPull => self.st_pull(o),
            SyncStep::AwaitFetch => self.st_fetch(o),
            SyncStep::AwaitReset => self.st_reset(o),
            SyncStep::AwaitRestoreCheckout => self.st_restore_checkout(o),
            SyncStep::AwaitRestorePop => self.st_restore_pop(o),
            SyncStep::Start | SyncStep::Finished => {
                proof {
                    assert(false);
                }
                self.finish(SyncStatus::Synced(None))
            },
        }
    }

    fn st_dry_wait(&mut self, o: Outcome) -> (r: StepResult)
        requires
            old(self).wf(),
            old(self).step == SyncStep::DryWait,
            old(self).accepts(o@),
        ensures
            final(self).wf(),
            Self::step_matches(
                *old(self),
                o@,
                *final(self),
                events_view(r.events@),
                dir_view(r.directive),
            ),
    {
        let ghost pre = *self;
        let res = self.finish(SyncStatus::Synced(None));
        proof {
            lemma_tree_same(pre, *self);
        }
        res
    }

    fn st_await_exists(&mut self, o: Outcome) -> (r: StepResult)
        requires
            old(self).wf(),
            old(self).step == SyncStep::AwaitExists,
            old(self).accepts(o@),
        ensures
            final(self).wf(),
            Self::step_matches(
                *old(self),
                o@,
                *final(self),
                events_view(r.events@),
                dir_view(r.directive),
            ),
    {
        let ghost pre = *self;
        let exists = match o {
            Outcome::LocalExists(b) => b,
            _ => {
                proof {
                    assert(false);
                }
                false
            },
        };
        self.cloned = exists;
        self.step = if exists {
            SyncStep::AwaitBehindLocal
        } else {
            SyncStep::AwaitBehindRemote
        };
        let rq = mk_behind(&self.job.fork);
        let res = StepResult { events: no_events(), directive: Some(Directive::Run(rq)) };
        proof {
            lemma_tree_same(pre, *self);
        }
        res
    }

    fn st_behind_remote(&mut self, o: Outcome) -> (r: StepResult)
        requires
            old(self).wf(),
            old(self).step == SyncStep::AwaitBehindRemote,
            old(self).accepts(o@),
        ensures
            final(self).wf(),
            Self::step_matches(
                *old(self),
                o@,
                *final(self),
                events_view(r.events@),
                dir_view(r.directive),
            ),
    {
        let ghost pre = *self;
        let idx = self.job.index;
        self.behind = behind_of(&o);
        self.step = SyncStep::AwaitRemoteSyncRemote;
        self.hist = Ghost(pre.hist@.push((req_behind(pre.f()), ok_of(o@))));
        let rq = mk_sync(&self.job.fork);
        let events = one_status(idx, SyncStatus::Syncing);
        let res = StepResult { events, directive: Some(Directive::Run(rq)) };
        proof {
            lemma_tree_push_neutral(pre, *self, req_behind(pre.f()), ok_of(o@));
        }
        res
    }

    fn st_remote_sync_remote(&mut self, o: Outcome) -> (r: StepResult)
        requires
            old(self).wf(),
            old(self).step == SyncStep::AwaitRemoteSyncRemote,
            old(self).accepts(o@),
        ensures
            final(self).wf(),
            Self::step_matches(
                *old(self),
                o@,
                *final(self),
                events_view(r.events@),
                dir_view(r.directive),
            ),
    {
        let ghost pre = *self;
        self.hist = Ghost(pre.hist@.push((req_sync(pre.f()), ok_of(o@))));
        let res = match o {
            Outcome::Ran { success, stdout, stderr } => {
                if success {
                    let b = self.behind;
                    self.finish(SyncStatus::Synced(b))
                } else if str_contains(stderr.as_str(), "already up-to-date")
                    || stdout.as_str().unicode_len() > 0 {
                    self.finish(SyncStatus::Synced(Some(0)))
                } else {
                    self.finish(SyncStatus::Failed(truncate_error(stderr.as_str())))
                }
            },
            Outcome::NotRun { message } => {
                self.finish(SyncStatus::Failed(truncate_error(message.as_str())))
            },
            _ => {
                proof {
                    assert(false);
                }
                self.finish(SyncStatus::Synced(None))
            },
        };
        proof {
            lemma_tree_push_neutral(pre, *self, req_sync(pre.f()), ok_of(o@));
        }
        res
    }

    fn st_behind_local(&mut self, o: Outcome) -> (r: StepResult)
        requires
            old(self).wf(),
            old(self).step == SyncStep::AwaitBehindLocal,
            old(self).accepts(o@),
        ensures
            final(self).wf(),
            Self::step_matches(
                *old(self),
                o@,
                *final(self),
                events_view(r.events@),
                dir_view(r.directive),
            ),
    {
        let ghost pre = *self;
        self.behind = behind_of(&o);
        self.step = SyncStep::AwaitStatus;
        self.hist = Ghost(pre.hist@.push((req_behind(pre.f()), ok_of(o@))));
        let rq = mk_status(&self.job.fork);
        let res = StepResult { events: no_events(), directive: Some(Directive::Run(rq)) };
        proof {
            lemma_tree_push_neutral(pre, *self, req_behind(pre.f()), ok_of(o@));
            lemma_reads_hist(pre, *self, req_behind(pre.f()), ok_of(o@));
        }
        res
    }

    fn st_status(&mut self, o: Outcome) -> (r: StepResult)
        requires
            old(self).wf(),
            old(self).step == SyncStep::AwaitStatus,
            old(self).accepts(o@),
        ensures
            final(self).wf(),
            Self::step_matches(
                *old(self),
                o@,
                *final(self),
                events_view(r.events@),
                dir_view(r.directive),
            ),
    {
        let ghost pre = *self;
        self.hist = Ghost(pre.hist@.push((req_status(pre.f()), ok_of(o@))));
        let res = match o {
            Outcome::Ran { stdout, .. } => {
                self.dirty = stdout.as_str().unicode_len() > 0;
                self.step = SyncStep::AwaitBranch;
                let rq = mk_branch(&self.job.fork);
                StepResult { events: no_events(), directive: Some(Directive::Run(rq)) }
            },
            Outcome::NotRun { message } => {
                self.finish(SyncStatus::Failed(truncate_error(message.as_str())))
            },
            _ => {
                proof {
                    assert(false);
                }
                self.finish(SyncStatus::Synced(None))
            },
        };
        proof {
            lemma_tree_push_neutral(pre, *self, req_status(pre.f()), ok_of(o@));
            lemma_reads_hist(pre, *self, req_status(pre.f()), ok_of(o@));
        }
        res
    }

    fn st_branch(&mut self, o: Outcome) -> (r: StepResult)
        requires
            old(self).wf(),
            old(self).step == SyncStep::AwaitBranch,
            old(self).accepts(o@),
        ensures
            final(self).wf(),
            Self::step_matches(
                *old(self),
                o@,
                *final(self),
                events_view(r.events@),
                dir_view(r.directive),
            ),
    {
        let ghost pre = *self;
        self.hist = Ghost(pre.hist@.push((req_branch(pre.f()), ok_of(o@))));
        let res = match o {
            Outcome::Ran { success, stdout, .. } => {
                if success {
                    let ob = trim_str(stdout.as_str());
                    self.on_default = ob == self.job.fork.default_branch;
                    self.original_branch = ob;
                    self.step = SyncStep::AwaitUnpushed;
                    let rq = mk_unpushed(&self.job.fork);
                    StepResult { events: no_events(), directive: Some(Directive::Run(rq)) }
                } else {
                    self.finish(SyncStatus::Failed("get branch failed".to_owned()))
                }
            },
            Outcome::NotRun { .. } => {
                self.finish(SyncStatus::Failed("get branch failed".to_owned()))
            },
            _ => {
                proof {
                    assert(false);
                }
                self.finish(SyncStatus::Synced(None))
            },
        };
        proof {
            lemma_reads_hist(pre, *self, req_branch(pre.f()), ok_of(o@));
            assert forall|d: nat| run_tree(self.tree0(d), self.hist@) == self.tree_now(d) by {
                lemma_reads_identity(self.tree0(d), self.hist@);
            }
        }
        res
    }

    fn st_unpushed(&mut self, o: Outcome) -> (r: StepResult)
        requires
            old(self).wf(),
            old(self).step == SyncStep::AwaitUnpushed,
            old(self).accepts(o@),
        ensures
            final(self).wf(),
            Self::step_matches(
                *old(self),
                o@,
                *final(self),
                events_view(r.events@),
                dir_view(r.directive),
            ),
    {
        let ghost pre = *self;
        let idx = self.job.index;
        self.hist = Ghost(pre.hist@.push((req_unpushed(pre.f()), ok_of(o@))));
        let res = if outcome_stdout_nonempty(&o) {
            self.finish(SyncStatus::Skipped("unpushed commits".to_owned()))
        } else if self.dirty {
            self.step = SyncStep::AwaitStash;
            let rq = mk_stash(&self.job.fork);
            let events = one_status(idx, SyncStatus::Stashing);
            StepResult { events, directive: Some(Directive::Run(rq)) }
        } else if !self.on_default {
            self.step = SyncStep::AwaitCheckout;
            let rq = mk_checkout(&self.job.fork, &self.job.fork.default_branch);
            StepResult { events: no_events(), directive: Some(Directive::Run(rq)) }
        } else {
            self.step = SyncStep::AwaitSync;
            let rq = mk_sync(&self.job.fork);
            let events = one_status(idx, SyncStatus::Syncing);
            StepResult { events, directive: Some(Directive::Run(rq)) }
        };
        proof {
            lemma_tree_push_neutral(pre, *self, req_unpushed(pre.f()), ok_of(o@));
            lemma_reads_hist(pre, *self, req_unpushed(pre.f()), ok_of(o@));
        }
        res
    }

    fn st_stash(&mut self, o: Outcome) -> (r: StepResult)
        requires
            old(self).wf(),
            old(self).step == SyncStep::AwaitStash,
            old(self).accepts(o@),
        ensures
            final(self).wf(),
            Self::step_matches(
                *old(self),
                o@,
                *final(self),
                events_view(r.events@),
                dir_view(r.directive),
            ),
    {
        let ghost pre = *self;
        let idx = self.job.index;
        let okb = outcome_ok(&o);
        self.hist = Ghost(pre.hist@.push((req_stash(pre.f()), ok_of(o@))));
        if okb {
            self.stashed = true;
            self.stash_live = Ghost(true);
            let res = if !self.on_default {
                self.step = SyncStep::AwaitCheckout;
                let rq = mk_checkout(&self.job.fork, &self.job.fork.default_branch);
                StepResult { events: no_events(), directive: Some(Directive::Run(rq)) }
            } else {
                self.step = SyncStep::AwaitSync;
                let rq = mk_sync(&self.job.fork);
                let events = one_status(idx, SyncStatus::Syncing);
                StepResult { events, directive: Some(Directive::Run(rq)) }
            };
            proof {
                lemma_tree_push_stash(pre, *self);
            }
            res
        } else {
            let res = self.finish(SyncStatus::Failed("stash failed".to_owned()));
            proof {
                lemma_tree_push_neutral(pre, *self, req_stash(pre.f()), ok_of(o@));
            }
            res
        }
    }

    fn st_checkout(&mut self, o: Outcome) -> (r: StepResult)
        requires
            old(self).wf(),
            old(self).step == SyncStep::AwaitCheckout,
            old(self).accepts(o@),
        ensures
            final(self).wf(),
            Self::step_matches(
                *old(self),
                o@,
                *final(self),
                events_view(r.events@),
                dir_view(r.directive),
            ),
    {
        let ghost pre = *self;
        let idx = self.job.index;
        let okb = outcome_ok(&o);
        self.hist = Ghost(
            pre.hist@.push((req_checkout(pre.f(), pre.f().default_branch), ok_of(o@))),
        );
        if okb {
            self.at_default = Ghost(true);
            self.step = SyncStep::AwaitSync;
            let rq = mk_sync(&self.job.fork);
            let events = one_status(idx, SyncStatus::Syncing);
            let res = StepResult { events, directive: Some(Directive::Run(rq)) };
            proof {
                lemma_tree_push_checkout(pre, *self, pre.f().default_branch, true);
            }
            res
        } else if self.stashed {
            self.step = SyncStep::AwaitPopCheckoutFailed;
            let rq = mk_pop(&self.job.fork);
            let res = StepResult { events: no_events(), directive: Some(Directive::Run(rq)) };
            proof {
                lemma_tree_push_checkout(pre, *self, pre.f().default_branch, ok_of(o@));
            }
            res
        } else {
            let res = self.finish(SyncStatus::Failed("checkout failed".to_owned()));
            proof {
                lemma_tree_push_checkout(pre, *self, pre.f().default_branch, ok_of(o@));
            }
            res
        }
    }

    fn st_pop_checkout_failed(&mut self, o: Outcome) -> (r: StepResult)
        requires
            old(self).wf(),
            old(self).step == SyncStep::AwaitPopCheckoutFailed,
            old(self).accepts(o@),
        ensures
            final(self).wf(),
            Self::step_matches(
                *old(self),
                o@,
                *final(self),
                events_view(r.events@),
                dir_view(r.directive),
            ),
    {
        let ghost pre = *self;
        let okb = outcome_ok(&o);
        self.hist = Ghost(pre.hist@.push((req_pop(pre.f()), ok_of(o@))));
        if okb {
            self.stash_live = Ghost(false);
        } else {
            self.rollback_ok = Ghost(false);
        }
        let res = self.finish(SyncStatus::Failed("checkout failed".to_owned()));
        proof {
            lemma_tree_push_pop(pre, *self, ok_of(o@));
        }
        res
    }

    fn st_sync(&mut self, o: Outcome) -> (r: StepResult)
        requires
            old(self).wf(),
            old(self).step == SyncStep::AwaitSync,
            old(self).accepts(o@),
        ensures
            final(self).wf(),
            Self::step_matches(
                *old(self),
                o@,
                *final(self),
                events_view(r.events@),
                dir_view(r.directive),
            ),
    {
        let ghost pre = *self;
        let idx = self.job.index;
        let okb = outcome_ok(&o);
        self.hist = Ghost(pre.hist@.push((req_sync(pre.f()), ok_of(o@))));
        let res = if okb {
            self.step = SyncStep::AwaitPull;
            let rq = mk_pull(&self.job.fork);
            let events = one_status(idx, SyncStatus::Fetching);
            StepResult { events, directive: Some(Directive::Run(rq)) }
        } else if !self.on_default {
            self.step = SyncStep::AwaitRollbackCheckout;
            let rq = mk_checkout(&self.job.fork, &self.original_branch);
            StepResult { events: no_events(), directive: Some(Directive::Run(rq)) }
        } else if self.stashed {
            self.step = SyncStep::AwaitPopSyncFailed;
            let rq = mk_pop(&self.job.fork);
            StepResult { events: no_events(), directive: Some(Directive::Run(rq)) }
        } else {
            self.finish(SyncStatus::Failed("sync failed".to_owned()))
        };
        proof {
            lemma_tree_push_neutral(pre, *self, req_sync(pre.f()), ok_of(o@));
        }
        res
    }

    fn st_rollback_checkout(&mut self, o: Outcome) -> (r: StepResult)
        requires
            old(self).wf(),
            old(self).step == SyncStep::AwaitRollbackCheckout,
            old(self).accepts(o@),
        ensures
            final(self).wf(),
            Self::step_matches(
                *old(self),
                o@,
                *final(self),
                events_view(r.events@),
                dir_view(r.directive),
            ),
    {
        let ghost pre = *self;
        let okb = outcome_ok(&o);
        self.hist = Ghost(
            pre.hist@.push((req_checkout(pre.f(), pre.original_branch@), ok_of(o@))),
        );
        if okb {
            self.at_default = Ghost(false);
        } else {
            self.rollback_ok = Ghost(false);
        }
        let res = if self.stashed {
            self.step = SyncStep::AwaitPopSyncFailed;
            let rq = mk_pop(&self.job.fork);
            StepResult { events: no_events(), directive: Some(Directive::Run(rq)) }
        } else {
            self.finish(SyncStatus::Failed("sync failed".to_owned()))
        };
        proof {
            lemma_tree_push_checkout(pre, *self, pre.original_branch@, ok_of(o@));
        }
        res
    }

    fn st_pop_sync_failed(&mut self, o: Outcome) -> (r: StepResult)
        requires
            old(self).wf(),
            old(self).step == SyncStep::AwaitPopSyncFailed,
            old(self).accepts(o@),
        ensures
            final(self).wf(),
            Self::step_matches(
                *old(self),
                o@,
                *final(self),
                events_view(r.events@),
                dir_view(r.directive),
            ),
    {
        let ghost pre = *self;
        let okb = outcome_ok(&o);
        self.hist = Ghost(pre.hist@.push((req_pop(pre.f()), ok_of(o@))));
        if okb {
            self.stash_live = Ghost(false);
        } else {
            self.rollback_ok = Ghost(false);
        }
        let res = self.finish(SyncStatus::Failed("sync failed".to_owned()));
        proof {
            lemma_tree_push_pop(pre, *self, ok_of(o@));
        }
        res
    }

    fn st_pull(&mut self, o: Outcome) -> (r: StepResult)
        requires
            old(self).wf(),
            old(self).step == SyncStep::AwaitPull,
            old(self).accepts(o@),
        ensures
            final(self).wf(),
            Self::step_matches(
                *old(self),
                o@,
                *final(self),
                events_view(r.events@),
                dir_view(r.directive),
            ),
    {
        let ghost pre = *self;
        let idx = self.job.index;
        let okb = outcome_ok(&o);
        self.hist = Ghost(pre.hist@.push((req_pull(pre.f()), ok_of(o@))));
        let res = if okb {
            if !self.on_default {
                self.step = SyncStep::AwaitRestoreCheckout;
                let rq = mk_checkout(&self.job.fork, &self.original_branch);
                let events = one_status(idx, SyncStatus::Restoring);
                StepResult { events, directive: Some(Directive::Run(rq)) }
            } else if self.stashed {
                self.step = SyncStep::AwaitRestorePop;
                let rq = mk_pop(&self.job.fork);
                let events = one_status(idx, SyncStatus::Restoring);
                StepResult { events, directive: Some(Directive::Run(rq)) }
            } else {
                let b = self.behind;
                self.finish(SyncStatus::Synced(b))
            }
        } else {
            self.step = SyncStep::AwaitFetch;
            let rq = mk_fetch(&self.job.fork);
            StepResult { events: no_events(), directive: Some(Directive::Run(rq)) }
        };
        proof {
            lemma_tree_push_neutral(pre, *self, req_pull(pre.f()), ok_of(o@));
        }
        res
    }

    fn st_fetch(&mut self, o: Outcome) -> (r: StepResult)
        requires
            old(self).wf(),
            old(self).step == SyncStep::AwaitFetch,
            old(self).accepts(o@),
        ensures
            final(self).wf(),
            Self::step_matches(
                *old(self),
                o@,
                *final(self),
                events_view(r.events@),
                dir_view(r.directive),
            ),
    {
        let ghost pre = *self;
        self.hist = Ghost(pre.hist@.push((req_fetch(pre.f()), ok_of(o@))));
        self.step = SyncStep::AwaitReset;
        let rq = mk_reset(&self.job.fork);
        let res = StepResult { events: no_events(), directive: Some(Directive::Run(rq)) };
        proof {
            lemma_tree_push_neutral(pre, *self, req_fetch(pre.f()), ok_of(o@));
        }
        res
    }

    fn st_reset(&mut self, o: Outcome) -> (r: StepResult)
        requires
            old(self).wf(),
            old(self).step == SyncStep::AwaitReset,
            old(self).accepts(o@),
        ensures
            final(self).wf(),
            Self::step_matches(
                *old(self),
                o@,
                *final(self),
                events_view(r.events@),
                dir_view(r.directive),
            ),
    {
        let ghost pre = *self;
        let idx = self.job.index;
        self.hist = Ghost(pre.hist@.push((req_reset(pre.f()), ok_of(o@))));
        let res = if !self.on_default {
            self.step = SyncStep::AwaitRestoreCheckout;
            let rq = mk_checkout(&self.job.fork, &self.original_branch);
            let events = one_status(idx, SyncStatus::Restoring);
            StepResult { events, directive: Some(Directive::Run(rq)) }
        } else if self.stashed {
            self.step = SyncStep::AwaitRestorePop;
            let rq = mk_pop(&self.job.fork);
            let events = one_status(idx, SyncStatus::Restoring);
            StepResult { events, directive: Some(Directive::Run(rq)) }
        } else {
            let b = self.behind;
            self.finish(SyncStatus::Synced(b))
        };
        proof {
            lemma_tree_push_neutral(pre, *self, req_reset(pre.f()), ok_of(o@));
        }
        res
    }

    fn st_restore_checkout(&mut self, o: Outcome) -> (r: StepResult)
        requires
            old(self).wf(),
            old(self).step == SyncStep::AwaitRestoreCheckout,
            old(self).accepts(o@),
        ensures
            final(self).wf(),
            Self::step_matches(
                *old(self),
                o@,
                *final(self),
                events_view(r.events@),
                dir_view(r.directive),
            ),
    {
        let ghost pre = *self;
        let idx = self.job.index;
        let okb = outcome_ok(&o);
        self.hist = Ghost(
            pre.hist@.push((req_checkout(pre.f(), pre.original_branch@), ok_of(o@))),
        );
        if okb {
            self.at_default = Ghost(false);
        }
        let res = if self.stashed {
            self.step = SyncStep::AwaitRestorePop;
            let rq = mk_pop(&self.job.fork);
            let events = one_status(idx, SyncStatus::Restoring);
            StepResult { events, directive: Some(Directive::Run(rq)) }
        } else {
            let b = self.behind;
            self.finish(SyncStatus::Synced(b))
        };
        proof {
            lemma_tree_push_checkout(pre, *self, pre.original_branch@, ok_of(o@));
        }
        res
    }

    fn st_restore_pop(&mut self, o: Outcome) -> (r: StepResult)
        requires
            old(self).wf(),
            old(self).step == SyncStep::AwaitRestorePop,
            old(self).accepts(o@),
        ensures
            final(self).wf(),
            Self::step_matches(
                *old(self),
                o@,
                *final(self),
                events_view(r.events@),
                dir_view(r.directive),
            ),
    {
        let ghost pre = *self;
        let okb = outcome_ok(&o);
        self.hist = Ghost(pre.hist@.push((req_pop(pre.f()), ok_of(o@))));
        if okb {
            self.stash_live = Ghost(false);
        }
        let b = self.behind;
        let res = self.finish(SyncStatus::Synced(b));
        proof {
            lemma_tree_push_pop(pre, *self, ok_of(o@));
        }
        res
    }

}

/// Law: a run that ended `Skipped` — unpushed commits were detected — never
/// completed anything but observations, so replaying its history from any
/// starting state leaves the working copy exactly as it was found.
pub proof fn lemma_skipped_leaves_tree_untouched(m: SyncMachine, d: nat)
    requires
        m.wf(),
        m.finished(),
        m.terminal@ matches Some(t) && t is Skipped,
    ensures
        forall|i: int| 0 <= i < m.hist@.len() ==> reads_only(#[trigger] m.hist@[i].0),
        run_tree(m.tree0(d), m.hist@) == m.tree0(d),
{
    assert(run_tree(m.tree0(d), m.hist@) == m.tree_now(d));
    assert(m.tree_now(d) == m.tree0(d));
}

/// Law: a run that ended `Failed` after mutating the working copy, and whose
/// rollback commands all succeeded, leaves the copy on the branch it started
/// on with the stash at its original depth — replaying its history from any
/// starting depth is the identity.
pub proof fn lemma_failed_rollback_restores(m: SyncMachine, d: nat)
    requires
        m.wf(),
        m.finished(),
        m.terminal@ matches Some(t) && t is Failed,
        m.rollback_ok@,
    ensures
        run_tree(m.tree0(d), m.hist@) == m.tree0(d),
{
    assert(run_tree(m.tree0(d), m.hist@) == m.tree_now(d));
    assert(m.tree_now(d) == m.tree0(d));
}

} // verus!
