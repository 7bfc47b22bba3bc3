//! The single-operation machines: clone, archive and delete, each a small
//! state machine over the same directive/outcome protocol as the sync run.
//! Their contracts pin the event discipline: a successful operation emits
//! exactly one structural event and then exactly one terminal status, and a
//! missing-authorization delete failure reverts the row to `Pending` with one
//! actionable error instead of a dead-end failure.

use vstd::prelude::*;
use vstd::string::*;
use crate::invoke::{
    dir_view, ok_of, Directive, DirectiveV, Outcome, OutcomeV, StepResult, VcsRequest,
};
use crate::reconcile::stderr_of;
use crate::strings::{has_substring, str_contains, truncate_error, truncate_reason};
use crate::types::{
    events_view, ErrorDetails, ErrorDetailsV, EventV, ForkV, StatusV, SyncJob, SyncResult,
    SyncStatus,
};

verus! {

/// The error text of a command that did not succeed: its captured standard
/// error, or the launch-failure message.
pub open spec fn err_text(o: OutcomeV) -> Seq<char> {
    match o {
        OutcomeV::Ran { stderr, .. } => stderr,
        OutcomeV::NotRun { message } => message,
        _ => Seq::empty(),
    }
}

/// The clone request for this fork, targeting its local path.
pub open spec fn req_clone(f: ForkV) -> crate::invoke::ReqV {
    crate::invoke::ReqV::RemoteClone { owner: f.owner, name: f.name, dest: f.local_path }
}

/// The remote archive request for this fork.
pub open spec fn req_archive(f: ForkV) -> crate::invoke::ReqV {
    crate::invoke::ReqV::RemoteArchive { owner: f.owner, name: f.name }
}

/// The remote delete request for this fork.
pub open spec fn req_delete(f: ForkV) -> crate::invoke::ReqV {
    crate::invoke::ReqV::RemoteDelete { owner: f.owner, name: f.name }
}

/// The local removal request for this fork's clone directory.
pub open spec fn req_remove(f: ForkV) -> crate::invoke::ReqV {
    crate::invoke::ReqV::RemoveLocalDir { path: f.local_path }
}

/// The parent-directory request for this fork's clone destination.
pub open spec fn req_parent_dir(f: ForkV) -> crate::invoke::ReqV {
    crate::invoke::ReqV::EnsureParentDir { path: f.local_path }
}

/// The actionable error raised when deletion is refused for a missing
/// authorization scope.
pub open spec fn scope_error(f: ForkV) -> ErrorDetailsV {
    ErrorDetailsV {
        title: "Missing GitHub Scope"@,
        message: "Cannot delete "@ + f.owner + "/"@ + f.name
            + ".\n\nThe 'delete_repo' scope is required.\n\nExit the TUI (press q) and run:\n\ngh auth refresh -h github.com -s delete_repo"@,
        action: None,
    }
}

/// Whether a failed delete names the missing `delete_repo` scope.
pub open spec fn is_scope_failure(o: OutcomeV) -> bool {
    &&& o is Ran
    &&& !ok_of(o)
    &&& has_substring(stderr_of(o), "delete_repo"@)
    &&& has_substring(stderr_of(o), "scope"@)
}

/// Where a single operation stands.
#[derive(Debug, Clone, Copy, PartialEq, Eq, Structural)]
pub enum SingleStep {
    /// Constructed; nothing issued yet.
    Start,
    /// Dry run: waiting out the rehearsal pause.
    DryWait,
    /// Clone: waiting for the parent directory to exist.
    AwaitParentDir,
    /// Clone: waiting for the clone command.
    AwaitClone,
    /// Archive: waiting for the remote archive command.
    AwaitArchive,
    /// Delete: waiting for the local-clone existence probe.
    AwaitExists,
    /// Delete: waiting for the local directory removal.
    AwaitRemove,
    /// Delete: waiting for the remote delete command.
    AwaitDelete,
    /// A terminal status has been emitted.
    Finished,
}

/// Two events, in order.
fn two_events(a: SyncResult, b: SyncResult) -> (r: Vec<SyncResult>)
    ensures
        events_view(r@) == seq![a@, b@],
{
    let ghost av = a@;
    let ghost bv = b@;
    let mut v: Vec<SyncResult> = Vec::new();
    v.push(a);
    v.push(b);
    proof {
        assert(events_view(v@) =~= seq![av, bv]);
    }
    v
}

/// No events.
fn zero_events() -> (r: Vec<SyncResult>)
    ensures
        events_view(r@) == Seq::<EventV>::empty(),
{
    let v: Vec<SyncResult> = Vec::new();
    proof {
        assert(events_view(v@) =~= Seq::<EventV>::empty());
    }
    v
}

/// One event.
fn one_event(a: SyncResult) -> (r: Vec<SyncResult>)
    ensures
        events_view(r@) == seq![a@],
{
    let ghost av = a@;
    let mut v: Vec<SyncResult> = Vec::new();
    v.push(a);
    proof {
        assert(events_view(v@) =~= seq![av]);
    }
    v
}

/// Builds the actionable missing-scope error for this fork.
fn mk_scope_error(f: &crate::types::Fork) -> (r: ErrorDetails)
    ensures
        r@ == scope_error(f@),
{
    let mut message = "Cannot delete ".to_owned();
    message.append(f.owner.as_str());
    message.append("/");
    message.append(f.name.as_str());
    message.append(
        ".\n\nThe 'delete_repo' scope is required.\n\nExit the TUI (press q) and run:\n\ngh auth refresh -h github.com -s delete_repo",
    );
    ErrorDetails { title: "Missing GitHub Scope".to_owned(), message, action: None }
}

/// Drives one fork through the clone operation.
pub struct CloneMachine {
    pub job: SyncJob,
    pub dry_run: bool,
    pub step: SingleStep,
}

impl CloneMachine {
    /// The machine's invariant.
    pub open spec fn wf(self) -> bool {
        &&& (self.step == SingleStep::Start || self.step == SingleStep::DryWait
            || self.step == SingleStep::AwaitParentDir || self.step == SingleStep::AwaitClone
            || self.step == SingleStep::Finished)
        &&& (self.dry_run ==> self.step == SingleStep::Start || self.step == SingleStep::DryWait
            || self.step == SingleStep::Finished)
    }

    /// Whether the machine awaits an outcome.
    pub open spec fn in_flight(self) -> bool {
        self.step != SingleStep::Start && self.step != SingleStep::Finished
    }

    /// The outcome variant a machine at this step may be fed.
    pub open spec fn accepts(self, o: OutcomeV) -> bool {
        match self.step {
            SingleStep::DryWait => o is Elapsed,
            _ => o is Ran || o is NotRun,
        }
    }

    /// A fresh clone machine for one job.
    pub fn new(job: SyncJob, dry_run: bool) -> (m: Self)
        ensures
            m.wf(),
            m.step == SingleStep::Start,
            m.job == job,
            m.dry_run == dry_run,
    {
        CloneMachine { job, dry_run, step: SingleStep::Start }
    }

    /// Starts the clone: announces `Cloning`, then either rehearses (dry run,
    /// no command and no probe) or asks for the clone destination's parent
    /// directory.
    pub fn start(&mut self) -> (r: StepResult)
        requires
            old(self).wf(),
            old(self).step == SingleStep::Start,
        ensures
            final(self).wf(),
            final(self).job == old(self).job,
            final(self).dry_run == old(self).dry_run,
            events_view(r.events@) == seq![
                EventV::StatusUpdate(old(self).job.index as int, StatusV::Cloning),
            ],
            old(self).dry_run ==> {
                &&& final(self).step == SingleStep::DryWait
                &&& dir_view(r.directive) == Some(DirectiveV::Pause(500))
            },
            !old(self).dry_run ==> {
                &&& final(self).step == SingleStep::AwaitParentDir
                &&& dir_view(r.directive)
                    == Some(DirectiveV::Run(req_parent_dir(old(self).job.fork@)))
            },
    {
        let events = one_event(SyncResult::StatusUpdate(self.job.index, SyncStatus::Cloning));
        if self.dry_run {
            self.step = SingleStep::DryWait;
            StepResult { events, directive: Some(Directive::Pause(500)) }
        } else {
            self.step = SingleStep::AwaitParentDir;
            let rq = VcsRequest::EnsureParentDir { path: self.job.fork.local_path.clone() };
            StepResult { events, directive: Some(Directive::Run(rq)) }
        }
    }

    /// Advances the clone. On success — rehearsed or real — exactly one
    /// structural `ForkCloned` event is followed by exactly one terminal
    /// `Synced` status, in that order; failures surface one terminal `Failed`.
    pub fn step(&mut self, o: Outcome) -> (r: StepResult)
        requires
            old(self).wf(),
            old(self).in_flight(),
            old(self).accepts(o@),
        ensures
            final(self).wf(),
            final(self).job == old(self).job,
            final(self).dry_run == old(self).dry_run,
            old(self).step == SingleStep::DryWait ==> {
                &&& final(self).step == SingleStep::Finished
                &&& events_view(r.events@) == seq![
                    EventV::ForkCloned(old(self).job.index as int),
                    EventV::StatusUpdate(old(self).job.index as int, StatusV::Synced(None)),
                ]
                &&& r.directive is None
            },
            old(self).step == SingleStep::AwaitParentDir ==> {
                &&& (ok_of(o@) ==> {
                    &&& final(self).step == SingleStep::AwaitClone
                    &&& events_view(r.events@) == Seq::<EventV>::empty()
                    &&& dir_view(r.directive)
                        == Some(DirectiveV::Run(req_clone(old(self).job.fork@)))
                })
                &&& (!ok_of(o@) ==> {
                    &&& final(self).step == SingleStep::Finished
                    &&& events_view(r.events@) == seq![
                        EventV::StatusUpdate(
                            old(self).job.index as int,
                            StatusV::Failed("mkdir: "@ + err_text(o@)),
                        ),
                    ]
                    &&& r.directive is None
                })
            },
            old(self).step == SingleStep::AwaitClone ==> {
                &&& (ok_of(o@) ==> {
                    &&& final(self).step == SingleStep::Finished
                    &&& events_view(r.events@) == seq![
                        EventV::ForkCloned(old(self).job.index as int),
                        EventV::StatusUpdate(old(self).job.index as int, StatusV::Synced(None)),
                    ]
                    &&& r.directive is None
                })
                &&& (!ok_of(o@) ==> {
                    &&& final(self).step == SingleStep::Finished
                    &&& events_view(r.events@) == seq![
                        EventV::StatusUpdate(
                            old(self).job.index as int,
                            StatusV::Failed(truncate_reason(err_text(o@))),
                        ),
                    ]
                    &&& r.directive is None
                })
            },
            old(self).dry_run ==> (match dir_view(r.directive) {
                Some(DirectiveV::Run(_)) => false,
                Some(DirectiveV::CheckLocal(_)) => false,
                _ => true,
            }),
    {
        let idx = self.job.index;
        match self.step {
            SingleStep::DryWait => {
                self.step = SingleStep::Finished;
                let events = two_events(
                    SyncResult::ForkCloned(idx),
                    SyncResult::StatusUpdate(idx, SyncStatus::Synced(None)),
                );
                StepResult { events, directive: None }
            },
            SingleStep::AwaitParentDir => {
                match o {
                    Outcome::Ran { success, stderr, .. } => {
                        if success {
                            self.step = SingleStep::AwaitClone;
                            let rq = VcsRequest::RemoteClone {
                                owner: self.job.fork.owner.clone(),
                                name: self.job.fork.name.clone(),
                                dest: self.job.fork.local_path.clone(),
                            };
                            StepResult {
                                events: zero_events(),
                                directive: Some(Directive::Run(rq)),
                            }
                        } else {
                            self.step = SingleStep::Finished;
                            let mut m = "mkdir: ".to_owned();
                            m.append(stderr.as_str());
                            let events = one_event(
                                SyncResult::StatusUpdate(idx, SyncStatus::Failed(m)),
                            );
                            StepResult { events, directive: None }
                        }
                    },
                    Outcome::NotRun { message } => {
                        self.step = SingleStep::Finished;
                        let mut m = "mkdir: ".to_owned();
                        m.append(message.as_str());
                        let events = one_event(
                            SyncResult::StatusUpdate(idx, SyncStatus::Failed(m)),
                        );
                        StepResult { events, directive: None }
                    },
                    _ => {
                        proof {
                            assert(false);
                        }
                        StepResult { events: zero_events(), directive: None }
                    },
                }
            },
            SingleStep::AwaitClone => {
                self.step = SingleStep::Finished;
                match o {
                    Outcome::Ran { success, stderr, .. } => {
                        if success {
                            let events = two_events(
                                SyncResult::ForkCloned(idx),
                                SyncResult::StatusUpdate(idx, SyncStatus::Synced(None)),
                            );
                            StepResult { events, directive: None }
                        } else {
                            let events = one_event(SyncResult::StatusUpdate(
                                idx,
                                SyncStatus::Failed(truncate_error(stderr.as_str())),
                            ));
                            StepResult { events, directive: None }
                        }
                    },
                    Outcome::NotRun { message } => {
                        let events = one_event(SyncResult::StatusUpdate(
                            idx,
                            SyncStatus::Failed(truncate_error(message.as_str())),
                        ));
                        StepResult { events, directive: None }
                    },
                    _ => {
                        proof {
                            assert(false);
                        }
                        StepResult { events: zero_events(), directive: None }
                    },
                }
            },
            _ => {
                proof {
                    assert(false);
                }
                StepResult { events: zero_events(), directive: None }
            },
        }
    }
}

/// Drives one fork through the archive operation.
pub struct ArchiveMachine {
    pub job: SyncJob,
    pub dry_run: bool,
    pub step: SingleStep,
}

impl ArchiveMachine {
    /// The machine's invariant.
    pub open spec fn wf(self) -> bool {
        &&& (self.step == SingleStep::Start || self.step == SingleStep::DryWait
            || self.step == SingleStep::AwaitArchive || self.step == SingleStep::Finished)
        &&& (self.dry_run ==> self.step == SingleStep::Start || self.step == SingleStep::DryWait
            || self.step == SingleStep::Finished)
    }

    /// Whether the machine awaits an outcome.
    pub open spec fn in_flight(self) -> bool {
        self.step != SingleStep::Start && self.step != SingleStep::Finished
    }

    /// The outcome variant a machine at this step may be fed.
    pub open spec fn accepts(self, o: OutcomeV) -> bool {
        match self.step {
            SingleStep::DryWait => o is Elapsed,
            _ => o is Ran || o is NotRun,
        }
    }

    /// A fresh archive machine for one job.
    pub fn new(job: SyncJob, dry_run: bool) -> (m: Self)
        ensures
            m.wf(),
            m.step == SingleStep::Start,
            m.job == job,
            m.dry_run == dry_run,
    {
        ArchiveMachine { job, dry_run, step: SingleStep::Start }
    }

    /// Starts the archive: announces `Archiving`, then either rehearses (dry
    /// run, no command) or asks for the remote archive command.
    pub fn start(&mut self) -> (r: StepResult)
        requires
            old(self).wf(),
            old(self).step == SingleStep::Start,
        ensures
            final(self).wf(),
            final(self).job == old(self).job,
            final(self).dry_run == old(self).dry_run,
            events_view(r.events@) == seq![
                EventV::StatusUpdate(old(self).job.index as int, StatusV::Archiving),
            ],
            old(self).dry_run ==> {
                &&& final(self).step == SingleStep::DryWait
                &&& dir_view(r.directive) == Some(DirectiveV::Pause(500))
            },
            !old(self).dry_run ==> {
                &&& final(self).step == SingleStep::AwaitArchive
                &&& dir_view(r.directive)
                    == Some(DirectiveV::Run(req_archive(old(self).job.fork@)))
            },
    {
        let events = one_event(SyncResult::StatusUpdate(self.job.index, SyncStatus::Archiving));
        if self.dry_run {
            self.step = SingleStep::DryWait;
            StepResult { events, directive: Some(Directive::Pause(500)) }
        } else {
            self.step = SingleStep::AwaitArchive;
            let rq = VcsRequest::RemoteArchive {
                owner: self.job.fork.owner.clone(),
                name: self.job.fork.name.clone(),
            };
            StepResult { events, directive: Some(Directive::Run(rq)) }
        }
    }

    /// Advances the archive. On success — rehearsed or real — exactly one
    /// structural `ForkArchived` event is followed by exactly one terminal
    /// `Synced` status, in that order; failures surface one terminal `Failed`.
    pub fn step(&mut self, o: Outcome) -> (r: StepResult)
        requires
            old(self).wf(),
            old(self).in_flight(),
            old(self).accepts(o@),
        ensures
            final(self).wf(),
            final(self).job == old(self).job,
            final(self).dry_run == old(self).dry_run,
            final(self).step == SingleStep::Finished,
            r.directive is None,
            old(self).step == SingleStep::DryWait || ok_of(o@) ==> events_view(r.events@)
                == seq![
                    EventV::ForkArchived(old(self).job.index as int),
                    EventV::StatusUpdate(old(self).job.index as int, StatusV::Synced(None)),
                ],
            old(self).step == SingleStep::AwaitArchive && !ok_of(o@) ==> events_view(r.events@)
                == seq![
                    EventV::StatusUpdate(
                        old(self).job.index as int,
                        StatusV::Failed(truncate_reason(err_text(o@))),
                    ),
                ],
    {
        let idx = self.job.index;
        self.step = SingleStep::Finished;
        match o {
            Outcome::Elapsed => {
                let events = two_events(
                    SyncResult::ForkArchived(idx),
                    SyncResult::StatusUpdate(idx, SyncStatus::Synced(None)),
                );
                StepResult { events, directive: None }
            },
            Outcome::Ran { success, stderr, .. } => {
                if success {
                    let events = two_events(
                        SyncResult::ForkArchived(idx),
                        SyncResult::StatusUpdate(idx, SyncStatus::Synced(None)),
                    );
                    StepResult { events, directive: None }
                } else {
                    let events = one_event(SyncResult::StatusUpdate(
                        idx,
                        SyncStatus::Failed(truncate_error(stderr.as_str())),
                    ));
                    StepResult { events, directive: None }
                }
            },
            Outcome::NotRun { message } => {
                let events = one_event(SyncResult::StatusUpdate(
                    idx,
                    SyncStatus::Failed(truncate_error(message.as_str())),
                ));
                StepResult { events, directive: None }
            },
            _ => {
                proof {
                    assert(false);
                }
                StepResult { events: zero_events(), directive: None }
            },
        }
    }
}

/// Drives one fork through the delete operation: the local clone is removed
/// first (fatal on failure, nothing remote has happened yet), then the remote
/// repository is deleted.
pub struct DeleteMachine {
    pub job: SyncJob,
    pub dry_run: bool,
    pub step: SingleStep,
}

impl DeleteMachine {
    /// The machine's invariant.
    pub open spec fn wf(self) -> bool {
        &&& (self.step == SingleStep::Start || self.step == SingleStep::DryWait
            || self.step == SingleStep::AwaitExists || self.step == SingleStep::AwaitRemove
            || self.step == SingleStep::AwaitDelete || self.step == SingleStep::Finished)
        &&& (self.dry_run ==> self.step == SingleStep::Start || self.step == SingleStep::DryWait
            || self.step == SingleStep::Finished)
    }

    /// Whether the machine awaits an outcome.
    pub open spec fn in_flight(self) -> bool {
        self.step != SingleStep::Start && self.step != SingleStep::Finished
    }

    /// The outcome variant a machine at this step may be fed.
    pub open spec fn accepts(self, o: OutcomeV) -> bool {
        match self.step {
            SingleStep::DryWait => o is Elapsed,
            SingleStep::AwaitExists => o is LocalExists,
            _ => o is Ran || o is NotRun,
        }
    }

    /// A fresh delete machine for one job.
    pub fn new(job: SyncJob, dry_run: bool) -> (m: Self)
        ensures
            m.wf(),
            m.step == SingleStep::Start,
            m.job == job,
            m.dry_run == dry_run,
    {
        DeleteMachine { job, dry_run, step: SingleStep::Start }
    }

    /// Starts the delete: announces `Deleting`, then either rehearses (dry
    /// run, no command and no probe) or probes for the local clone.
    pub fn start(&mut self) -> (r: StepResult)
        requires
            old(self).wf(),
            old(self).step == SingleStep::Start,
        ensures
            final(self).wf(),
            final(self).job == old(self).job,
            final(self).dry_run == old(self).dry_run,
            events_view(r.events@) == seq![
                EventV::StatusUpdate(old(self).job.index as int, StatusV::Deleting),
            ],
            old(self).dry_run ==> {
                &&& final(self).step == SingleStep::DryWait
                &&& dir_view(r.directive) == Some(DirectiveV::Pause(500))
            },
            !old(self).dry_run ==> {
                &&& final(self).step == SingleStep::AwaitExists
                &&& dir_view(r.directive)
                    == Some(DirectiveV::CheckLocal(old(self).job.fork.local_path@))
            },
    {
        let events = one_event(SyncResult::StatusUpdate(self.job.index, SyncStatus::Deleting));
        if self.dry_run {
            self.step = SingleStep::DryWait;
            StepResult { events, directive: Some(Directive::Pause(500)) }
        } else {
            self.step = SingleStep::AwaitExists;
            let path = self.job.fork.local_path.clone();
            StepResult { events, directive: Some(Directive::CheckLocal(path)) }
        }
    }

    /// Advances the delete. On success — rehearsed or real — exactly one
    /// structural `ForkDeleted` event is followed by exactly one terminal
    /// `Synced` status, in that order. A remote refusal that names the
    /// missing `delete_repo` scope never ends in `Failed`: the row reverts to
    /// `Pending` and exactly one actionable error is emitted. Other failures
    /// surface one terminal `Failed`.
    pub fn step(&mut self, o: Outcome) -> (r: StepResult)
        requires
            old(self).wf(),
            old(self).in_flight(),
            old(self).accepts(o@),
        ensures
            final(self).wf(),
            final(self).job == old(self).job,
            final(self).dry_run == old(self).dry_run,
            old(self).step == SingleStep::DryWait ==> {
                &&& final(self).step == SingleStep::Finished
                &&& events_view(r.events@) == seq![
                    EventV::ForkDeleted(old(self).job.index as int),
                    EventV::StatusUpdate(old(self).job.index as int, StatusV::Synced(None)),
                ]
                &&& r.directive is None
            },
            old(self).step == SingleStep::AwaitExists ==> {
                &&& (o@ == OutcomeV::LocalExists(true) ==> {
                    &&& final(self).step == SingleStep::AwaitRemove
                    &&& events_view(r.events@) == Seq::<EventV>::empty()
                    &&& dir_view(r.directive)
                        == Some(DirectiveV::Run(req_remove(old(self).job.fork@)))
                })
                &&& (o@ == OutcomeV::LocalExists(false) ==> {
                    &&& final(self).step == SingleStep::AwaitDelete
                    &&& events_view(r.events@) == Seq::<EventV>::empty()
                    &&& dir_view(r.directive)
                        == Some(DirectiveV::Run(req_delete(old(self).job.fork@)))
                })
            },
            old(self).step == SingleStep::AwaitRemove ==> {
                &&& (ok_of(o@) ==> {
                    &&& final(self).step == SingleStep::AwaitDelete
                    &&& events_view(r.events@) == Seq::<EventV>::empty()
                    &&& dir_view(r.directive)
                        == Some(DirectiveV::Run(req_delete(old(self).job.fork@)))
                })
                &&& (!ok_of(o@) ==> {
                    &&& final(self).step == SingleStep::Finished
                    &&& events_view(r.events@) == seq![
                        EventV::StatusUpdate(
                            old(self).job.index as int,
                            StatusV::Failed(truncate_reason("rm local: "@ + err_text(o@))),
                        ),
                    ]
                    &&& r.directive is None
                })
            },
            old(self).step == SingleStep::AwaitDelete ==> {
                &&& final(self).step == SingleStep::Finished
                &&& r.directive is None
                &&& (ok_of(o@) ==> events_view(r.events@) == seq![
                    EventV::ForkDeleted(old(self).job.index as int),
                    EventV::StatusUpdate(old(self).job.index as int, StatusV::Synced(None)),
                ])
                &&& (is_scope_failure(o@) ==> events_view(r.events@) == seq![
                    EventV::StatusUpdate(old(self).job.index as int, StatusV::Pending),
                    EventV::ActionableError(scope_error(old(self).job.fork@)),
                ])
                &&& (!ok_of(o@) && !is_scope_failure(o@) ==> events_view(r.events@) == seq![
                    EventV::StatusUpdate(
                        old(self).job.index as int,
                        StatusV::Failed(truncate_reason(err_text(o@))),
                    ),
                ])
            },
            old(self).dry_run ==> (match dir_view(r.directive) {
                Some(DirectiveV::Run(_)) => false,
                Some(DirectiveV::CheckLocal(_)) => false,
                _ => true,
            }),
    {
        let idx = self.job.index;
        match self.step {
            SingleStep::DryWait => {
                self.step = SingleStep::Finished;
                let events = two_events(
                    SyncResult::ForkDeleted(idx),
                    SyncResult::StatusUpdate(idx, SyncStatus::Synced(None)),
                );
                StepResult { events, directive: None }
            },
            SingleStep::AwaitExists => {
                let exists = match o {
                    Outcome::LocalExists(b) => b,
                    _ => {
                        proof {
                            assert(false);
                        }
                        false
                    },
                };
                if exists {
                    self.step = SingleStep::AwaitRemove;
                    let rq = VcsRequest::RemoveLocalDir {
                        path: self.job.fork.local_path.clone(),
                    };
                    StepResult { events: zero_events(), directive: Some(Directive::Run(rq)) }
                } else {
                    self.step = SingleStep::AwaitDelete;
                    let rq = VcsRequest::RemoteDelete {
                        owner: self.job.fork.owner.clone(),
                        name: self.job.fork.name.clone(),
                    };
                    StepResult { events: zero_events(), directive: Some(Directive::Run(rq)) }
                }
            },
            SingleStep::AwaitRemove => {
                let okb = match &o {
                    Outcome::Ran { success, .. } => *success,
                    _ => false,
                };
                if okb {
                    self.step = SingleStep::AwaitDelete;
                    let rq = VcsRequest::RemoteDelete {
                        owner: self.job.fork.owner.clone(),
                        name: self.job.fork.name.clone(),
                    };
                    StepResult { events: zero_events(), directive: Some(Directive::Run(rq)) }
                } else {
                    self.step = SingleStep::Finished;
                    let mut m = "rm local: ".to_owned();
                    match o {
                        Outcome::Ran { stderr, .. } => m.append(stderr.as_str()),
                        Outcome::NotRun { message } => m.append(message.as_str()),
                        _ => {
                            proof {
                                assert(false);
                            }
                        },
                    }
                    let events = one_event(SyncResult::StatusUpdate(
                        idx,
                        SyncStatus::Failed(truncate_error(m.as_str())),
                    ));
                    StepResult { events, directive: None }
                }
            },
            SingleStep::AwaitDelete => {
                self.step = SingleStep::Finished;
                match o {
                    Outcome::Ran { success, stderr, .. } => {
                        if success {
                            let events = two_events(
                                SyncResult::ForkDeleted(idx),
                                SyncResult::StatusUpdate(idx, SyncStatus::Synced(None)),
                            );
                            StepResult { events, directive: None }
                        } else if str_contains(stderr.as_str(), "delete_repo")
                            && str_contains(stderr.as_str(), "scope") {
                            let details = mk_scope_error(&self.job.fork);
                            let events = two_events(
                                SyncResult::StatusUpdate(idx, SyncStatus::Pending),
                                SyncResult::ActionableError(details),
                            );
                            StepResult { events, directive: None }
                        } else {
                            let events = one_event(SyncResult::StatusUpdate(
                                idx,
                                SyncStatus::Failed(truncate_error(stderr.as_str())),
                            ));
                            StepResult { events, directive: None }
                        }
                    },
                    Outcome::NotRun { message } => {
                        let events = one_event(SyncResult::StatusUpdate(
                            idx,
                            SyncStatus::Failed(truncate_error(message.as_str())),
                        ));
                        StepResult { events, directive: None }
                    },
                    _ => {
                        proof {
                            assert(false);
                        }
                        StepResult { events: zero_events(), directive: None }
                    },
                }
            },
            _ => {
                proof {
                    assert(false);
                }
                StepResult { events: zero_events(), directive: None }
            },
        }
    }
}

} // verus!
