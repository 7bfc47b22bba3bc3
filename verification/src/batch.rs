//! The batch runner: executes a list of sync jobs strictly sequentially in
//! one worker, with a fixed pause between jobs. Every event it forwards
//! belongs to the job at its current position, and the position advances
//! only through the pause that follows a job's terminal status — so the
//! progress events of one job are complete before the next job's first event
//! is produced.

use vstd::prelude::*;
use crate::invoke::{dir_view, Directive, DirectiveV, Outcome, OutcomeV, ReqV, StepResult};
use crate::reconcile::{SyncMachine, SyncStep};
use crate::types::{events_view, EventV, StatusV, SyncJob, SyncResult};

verus! {

/// Whether an event is a status update for the job at index `idx`.
pub open spec fn event_for(ev: EventV, idx: int) -> bool {
    ev matches EventV::StatusUpdate(j, _) && j == idx
}

/// Every event a sync-machine step produces is a status update for its own
/// job; a finishing step produces exactly its one terminal status; and a step
/// never returns to the unstarted state.
proof fn lemma_sync_step_events(m: SyncMachine, o: OutcomeV)
    requires
        m.in_flight(),
    ensures
        forall|i: int| 0 <= i < m.step_spec(o).events.len()
            ==> event_for(#[trigger] m.step_spec(o).events[i], m.job.index as int),
        m.step_spec(o).step == SyncStep::Finished ==> {
            let evs = m.step_spec(o).events;
            &&& evs.len() == 1
            &&& evs[0] matches EventV::StatusUpdate(j, st)
                && j == m.job.index as int && st.is_terminal()
        },
        m.step_spec(o).step != SyncStep::Start,
{
}

/// A machine freshly built for `job` and started: nothing completed yet,
/// waiting either out the rehearsal pause or on the local-clone probe.
pub open spec fn started_machine(m: SyncMachine, job: SyncJob, dry_run: bool) -> bool {
    &&& m.job == job
    &&& m.dry_run == dry_run
    &&& m.hist@ == Seq::<(ReqV, bool)>::empty()
    &&& m.terminal@ == Option::<StatusV>::None
    &&& (dry_run ==> m.step == SyncStep::DryWait)
    &&& (!dry_run ==> m.step == SyncStep::AwaitExists)
}

/// What starting a job's machine hands back: the job's `Checking` event and,
/// on a dry run, the rehearsal pause, else the local-clone probe.
pub open spec fn start_result(
    job: SyncJob,
    dry_run: bool,
    evs: Seq<EventV>,
    dir: Option<DirectiveV>,
) -> bool {
    &&& evs == seq![EventV::StatusUpdate(job.index as int, StatusV::Checking)]
    &&& (dry_run ==> dir == Some(DirectiveV::Pause(500)))
    &&& (!dry_run ==> dir == Some(DirectiveV::CheckLocal(job.fork.local_path@)))
}

/// Where the batch stands.
#[derive(Debug, Clone, Copy, PartialEq, Eq, Structural)]
pub enum BatchStep {
    /// Constructed; nothing dispatched yet.
    Start,
    /// The job at the current position is running.
    Job,
    /// The pause after a finished job.
    Between,
    /// All jobs have finished.
    Done,
}

/// Runs a list of sync jobs in order, one at a time.
pub struct BatchRunner {
    pub jobs: Vec<SyncJob>,
    pub dry_run: bool,
    pub pos: usize,
    pub machine: Option<SyncMachine>,
    pub step: BatchStep,
}

impl BatchRunner {
    /// The runner's invariant.
    pub open spec fn wf(self) -> bool {
        match self.step {
            BatchStep::Start => self.pos == 0 && self.machine is None,
            BatchStep::Job => {
                &&& self.pos < self.jobs@.len()
                &&& self.machine matches Some(m)
                &&& {
                    let m = self.machine->Some_0;
                    &&& m.wf()
                    &&& m.in_flight()
                    &&& m.job == self.jobs@[self.pos as int]
                    &&& m.dry_run == self.dry_run
                }
            },
            BatchStep::Between => self.pos < self.jobs@.len() && self.machine is None,
            BatchStep::Done => self.pos == self.jobs@.len() && self.machine is None,
        }
    }

    /// Whether the runner awaits an outcome.
    pub open spec fn in_flight(self) -> bool {
        self.step == BatchStep::Job || self.step == BatchStep::Between
    }

    /// Whether the batch has finished every job.
    pub open spec fn finished(self) -> bool {
        self.step == BatchStep::Done
    }

    /// The outcome variant the runner may be fed.
    pub open spec fn accepts(self, o: OutcomeV) -> bool {
        match self.step {
            BatchStep::Job => (self.machine matches Some(m)) && self.machine->Some_0.accepts(o),
            BatchStep::Between => o is Elapsed,
            _ => false,
        }
    }

    /// A fresh runner over these jobs, in list order.
    pub fn new(jobs: Vec<SyncJob>, dry_run: bool) -> (b: Self)
        ensures
            b.wf(),
            b.step == BatchStep::Start,
            b.jobs == jobs,
            b.dry_run == dry_run,
            b.pos == 0,
    {
        BatchRunner { jobs, dry_run, pos: 0, machine: None, step: BatchStep::Start }
    }

    /// Dispatches the first job, or finishes at once when the list is empty.
    /// The events produced belong to the first job; a dry run asks only for
    /// pauses.
    pub fn start(&mut self) -> (r: StepResult)
        requires
            old(self).wf(),
            old(self).step == BatchStep::Start,
        ensures
            final(self).wf(),
            final(self).jobs == old(self).jobs,
            final(self).dry_run == old(self).dry_run,
            final(self).pos == 0,
            old(self).jobs@.len() == 0 ==> {
                &&& final(self).step == BatchStep::Done
                &&& events_view(r.events@) == Seq::<EventV>::empty()
                &&& r.directive is None
            },
            old(self).jobs@.len() > 0 ==> {
                &&& final(self).step == BatchStep::Job
                &&& final(self).machine matches Some(m)
                &&& started_machine(
                    final(self).machine->Some_0,
                    old(self).jobs@[0],
                    old(self).dry_run,
                )
                &&& start_result(
                    old(self).jobs@[0],
                    old(self).dry_run,
                    events_view(r.events@),
                    dir_view(r.directive),
                )
            },
            old(self).dry_run ==> (match dir_view(r.directive) {
                Some(DirectiveV::Run(_)) => false,
                Some(DirectiveV::CheckLocal(_)) => false,
                _ => true,
            }),
    {
        if self.jobs.len() == 0 {
            self.step = BatchStep::Done;
            let events: Vec<SyncResult> = Vec::new();
            proof {
                assert(events_view(events@) =~= Seq::<EventV>::empty());
            }
            StepResult { events, directive: None }
        } else {
            let job = self.jobs[0].clone();
            let mut m = SyncMachine::new(job, self.dry_run);
            let res = m.start();
            self.machine = Some(m);
            self.step = BatchStep::Job;
            res
        }
    }

    /// Advances the batch by one outcome. While a job runs, the step is
    /// exactly the inner machine's step: the machine's events are handed on,
    /// and the machine's directive too, until its terminal status moves the
    /// batch into the fixed inter-job pause. Out of the pause the position
    /// advances by exactly one and the next job's machine is built and
    /// started, or — with no job left — the batch is done. So the position is
    /// monotone, no job is skipped, repeated or dropped, and no event of a
    /// later job precedes the terminal event of an earlier one.
    pub fn step(&mut self, o: Outcome) -> (r: StepResult)
        requires
            old(self).wf(),
            old(self).in_flight(),
            old(self).accepts(o@),
        ensures
            final(self).wf(),
            final(self).jobs == old(self).jobs,
            final(self).dry_run == old(self).dry_run,
            old(self).step == BatchStep::Job ==> ({
                let m0 = old(self).machine->Some_0;
                let p = m0.step_spec(o@);
                &&& final(self).pos == old(self).pos
                &&& events_view(r.events@) == p.events
                &&& (p.step == SyncStep::Finished ==> {
                    &&& final(self).step == BatchStep::Between
                    &&& final(self).machine is None
                    &&& dir_view(r.directive) == Some(DirectiveV::Pause(100))
                })
                &&& (p.step != SyncStep::Finished ==> {
                    &&& final(self).step == BatchStep::Job
                    &&& final(self).machine matches Some(m2)
                    &&& SyncMachine::step_matches(
                        m0,
                        o@,
                        final(self).machine->Some_0,
                        p.events,
                        p.directive,
                    )
                    &&& dir_view(r.directive) == p.directive
                })
            }),
            old(self).step == BatchStep::Between ==> ({
                &&& final(self).pos == old(self).pos + 1
                &&& (old(self).pos + 1 < old(self).jobs@.len() ==> {
                    &&& final(self).step == BatchStep::Job
                    &&& final(self).machine matches Some(m2)
                    &&& started_machine(
                        final(self).machine->Some_0,
                        old(self).jobs@[old(self).pos + 1],
                        old(self).dry_run,
                    )
                    &&& start_result(
                        old(self).jobs@[old(self).pos + 1],
                        old(self).dry_run,
                        events_view(r.events@),
                        dir_view(r.directive),
                    )
                })
                &&& (old(self).pos + 1 == old(self).jobs@.len() ==> {
                    &&& final(self).step == BatchStep::Done
                    &&& events_view(r.events@) == Seq::<EventV>::empty()
                    &&& r.directive is None
                })
            }),
            old(self).pos <= final(self).pos <= old(self).pos + 1,
            final(self).pos > old(self).pos ==> old(self).step == BatchStep::Between,
            forall|i: int| 0 <= i < events_view(r.events@).len() ==> {
                &&& final(self).pos < final(self).jobs@.len()
                &&& event_for(
                    #[trigger] events_view(r.events@)[i],
                    final(self).jobs@[final(self).pos as int].index as int,
                )
            },
            old(self).step == BatchStep::Job && final(self).step == BatchStep::Between ==> {
                let evs = events_view(r.events@);
                &&& evs.len() == 1
                &&& evs[0] matches EventV::StatusUpdate(j, st)
                    && j == old(self).jobs@[old(self).pos as int].index as int
                    && st.is_terminal()
            },
            final(self).finished() ==> r.directive is None,
            old(self).dry_run ==> (match dir_view(r.directive) {
                Some(DirectiveV::Run(_)) => false,
                Some(DirectiveV::CheckLocal(_)) => false,
                _ => true,
            }),
    {
        match self.step {
            BatchStep::Job => {
                let taken = self.machine.take();
                match taken {
                    Some(mut m) => {
                        let ghost pre_m = m;
                        let res = m.step(o);
                        proof {
                            lemma_sync_step_events(pre_m, o@);
                        }
                        if m.is_finished() {
                            self.step = BatchStep::Between;
                            StepResult {
                                events: res.events,
                                directive: Some(Directive::Pause(100)),
                            }
                        } else {
                            self.machine = Some(m);
                            self.step = BatchStep::Job;
                            StepResult { events: res.events, directive: res.directive }
                        }
                    },
                    None => {
                        proof {
                            assert(false);
                        }
                        StepResult { events: Vec::new(), directive: None }
                    },
                }
            },
            BatchStep::Between => {
                let n = self.jobs.len();
                assert(self.pos < n);
                self.pos = self.pos + 1;
                if self.pos < self.jobs.len() {
                    let job = self.jobs[self.pos].clone();
                    let mut m = SyncMachine::new(job, self.dry_run);
                    let res = m.start();
                    self.machine = Some(m);
                    self.step = BatchStep::Job;
                    res
                } else {
                    self.step = BatchStep::Done;
                    let events: Vec<SyncResult> = Vec::new();
                    proof {
                        assert(events_view(events@) =~= Seq::<EventV>::empty());
                    }
                    StepResult { events, directive: None }
                }
            },
            _ => {
                proof {
                    assert(false);
                }
                StepResult { events: Vec::new(), directive: None }
            },
        }
    }
}

} // verus!
