use repo_syncer::invoke::{Directive, Outcome, StepResult, VcsRequest};
use repo_syncer::reconcile::SyncMachine;
use repo_syncer::types::{Fork, SyncJob, SyncResult, SyncStatus};

fn fork(owner: &str, name: &str, parent_owner: &str, branch: &str) -> Fork {
    Fork {
        name: name.to_string(),
        owner: owner.to_string(),
        parent_owner: parent_owner.to_string(),
        parent_name: name.to_string(),
        default_branch: branch.to_string(),
        local_path: format!("/home/u/dev/{owner}/{name}"),
        is_cloned: false,
        description: None,
        primary_language: None,
        created_at: None,
        updated_at: None,
    }
}

fn ran(success: bool, stdout: &str, stderr: &str) -> Outcome {
    Outcome::Ran { success, stdout: stdout.to_string(), stderr: stderr.to_string() }
}

fn statuses_of(events: &[SyncResult]) -> Vec<(usize, SyncStatus)> {
    events
        .iter()
        .map(|e| match e {
            SyncResult::StatusUpdate(i, st) => (*i, st.clone()),
            other => panic!("sync run emitted a non-status event: {other:?}"),
        })
        .collect()
}

#[test]
fn dry_run_sync_invokes_nothing_and_ends_synced() {
    let mut m = SyncMachine::new(SyncJob { index: 4, fork: fork("a", "r", "up", "main") }, true);
    let r = m.start();
    assert!(matches!(r.directive, Some(Directive::Pause(500))));
    let sts = statuses_of(&r.events);
    assert_eq!(sts.len(), 1);
    assert!(matches!(sts[0], (4, SyncStatus::Checking)));
    let r2 = m.step(Outcome::Elapsed);
    assert!(r2.directive.is_none());
    let sts2 = statuses_of(&r2.events);
    assert_eq!(sts2.len(), 1);
    assert!(matches!(sts2[0], (4, SyncStatus::Synced(None))));
}

/// Scenario: fork `alice/widget` (parent `org/widget`, branch `main`), not
/// cloned locally, no dry run: only the commits-behind query and the remote
/// sync run, and the terminal status carries the pre-sync comparison value.
#[test]
fn uncloned_fork_syncs_remotely_only() {
    let f = fork("alice", "widget", "org", "main");
    let mut m = SyncMachine::new(SyncJob { index: 7, fork: f }, false);
    let r = m.start();
    match &r.directive {
        Some(Directive::CheckLocal(p)) => assert_eq!(p, "/home/u/dev/alice/widget"),
        other => panic!("expected existence probe, got {other:?}"),
    }
    let r = m.step(Outcome::LocalExists(false));
    match &r.directive {
        Some(Directive::Run(VcsRequest::RemoteCommitsBehind {
            owner,
            name,
            branch,
            upstream_owner,
            upstream_branch,
        })) => {
            assert_eq!(owner, "alice");
            assert_eq!(name, "widget");
            assert_eq!(branch, "main");
            assert_eq!(upstream_owner, "org");
            assert_eq!(upstream_branch, "main");
        },
        other => panic!("expected commits-behind query, got {other:?}"),
    }
    assert!(r.events.is_empty());
    let r = m.step(ran(true, "3\n", ""));
    match &r.directive {
        Some(Directive::Run(VcsRequest::RemoteSync {
            owner,
            name,
            source_owner,
            source_name,
            branch,
        })) => {
            assert_eq!(owner, "alice");
            assert_eq!(name, "widget");
            assert_eq!(source_owner, "org");
            assert_eq!(source_name, "widget");
            assert_eq!(branch, "main");
        },
        other => panic!("expected remote sync, got {other:?}"),
    }
    let sts = statuses_of(&r.events);
    assert!(matches!(sts[..], [(7, SyncStatus::Syncing)]));
    let r = m.step(ran(true, "", ""));
    assert!(r.directive.is_none());
    let sts = statuses_of(&r.events);
    assert!(matches!(sts[..], [(7, SyncStatus::Synced(Some(3)))]));
}

#[test]
fn uncloned_fork_already_up_to_date_counts_zero() {
    let f = fork("alice", "widget", "org", "main");
    let mut m = SyncMachine::new(SyncJob { index: 0, fork: f }, false);
    m.start();
    m.step(Outcome::LocalExists(false));
    m.step(ran(false, "", ""));
    let r = m.step(ran(false, "", "already up-to-date"));
    let sts = statuses_of(&r.events);
    assert!(matches!(sts[..], [(0, SyncStatus::Synced(Some(0)))]));
}

/// Drives a cloned-fork run up to and including the unpushed-commits answer,
/// collecting every event on the way.
fn to_unpushed(
    m: &mut SyncMachine,
    dirty: bool,
    branch: &str,
    unpushed_out: &str,
) -> (Vec<SyncResult>, StepResult) {
    let mut events = Vec::new();
    let mut r = m.start();
    events.append(&mut r.events);
    let mut r = m.step(Outcome::LocalExists(true));
    events.append(&mut r.events);
    let mut r = m.step(ran(true, "2", ""));
    events.append(&mut r.events);
    let mut r = m.step(ran(true, if dirty { " M file.rs\n" } else { "" }, ""));
    events.append(&mut r.events);
    let mut r = m.step(ran(true, &format!("{branch}\n"), ""));
    events.append(&mut r.events);
    let r = m.step(ran(true, unpushed_out, ""));
    (events, r)
}

/// Unpushed commits are detected before anything is touched: the run ends
/// `Skipped` and only observations were requested.
#[test]
fn unpushed_commits_skip_before_any_mutation() {
    let f = fork("alice", "widget", "org", "main");
    let mut m = SyncMachine::new(SyncJob { index: 2, fork: f }, false);
    let mut requests: Vec<String> = Vec::new();
    let mut record = |r: &StepResult| {
        if let Some(Directive::Run(rq)) = &r.directive {
            requests.push(format!("{rq:?}"));
        }
    };
    let r0 = m.start();
    record(&r0);
    let r1 = m.step(Outcome::LocalExists(true));
    record(&r1);
    let r2 = m.step(ran(true, "2", ""));
    record(&r2);
    let r3 = m.step(ran(true, " M dirty\n", ""));
    record(&r3);
    let r4 = m.step(ran(true, "feature-x\n", ""));
    record(&r4);
    let r5 = m.step(ran(true, "abc123 local work\n", ""));
    record(&r5);
    assert!(r5.directive.is_none());
    let sts = statuses_of(&r5.events);
    assert_eq!(sts.len(), 1);
    match &sts[0] {
        (2, SyncStatus::Skipped(reason)) => assert_eq!(reason, "unpushed commits"),
        other => panic!("expected skip, got {other:?}"),
    }
    for rq in &requests {
        let read_only = rq.starts_with("StatusPorcelain") || rq.starts_with("CurrentBranch")
            || rq.starts_with("UnpushedCommits") || rq.starts_with("RemoteCommitsBehind");
        assert!(read_only, "a non-observing command was requested before the skip: {rq}");
    }
}

/// Scenario: cloned, dirty tree, on `feature-x` with default `main`, remote
/// sync succeeds, the local fast-forward pull is rejected: the run falls back
/// to fetch plus hard reset, restores the branch and the stash, and ends
/// `Synced` with the pre-sync count.
#[test]
fn dirty_offbranch_pull_rejected_falls_back_and_restores() {
    let f = fork("alice", "widget", "org", "main");
    let mut m = SyncMachine::new(SyncJob { index: 5, fork: f }, false);
    let (mut all_events, r) = to_unpushed(&mut m, true, "feature-x", "");
    all_events.extend(r.events);
    assert!(matches!(&r.directive, Some(Directive::Run(VcsRequest::StashPush { .. }))));
    let r = m.step(ran(true, "", ""));
    all_events.extend(r.events);
    match &r.directive {
        Some(Directive::Run(VcsRequest::Checkout { branch, .. })) => assert_eq!(branch, "main"),
        other => panic!("expected checkout of default branch, got {other:?}"),
    }
    let r = m.step(ran(true, "", ""));
    all_events.extend(r.events);
    assert!(matches!(&r.directive, Some(Directive::Run(VcsRequest::RemoteSync { .. }))));
    let r = m.step(ran(true, "", ""));
    all_events.extend(r.events);
    assert!(matches!(
        &r.directive,
        Some(Directive::Run(VcsRequest::PullFastForwardOnly { .. }))
    ));
    let r = m.step(ran(false, "", "fatal: not possible to fast-forward"));
    all_events.extend(r.events);
    assert!(matches!(&r.directive, Some(Directive::Run(VcsRequest::Fetch { .. }))));
    let r = m.step(ran(true, "", ""));
    all_events.extend(r.events);
    match &r.directive {
        Some(Directive::Run(VcsRequest::ResetHard { reference, .. })) => {
            assert_eq!(reference, "origin/main");
        },
        other => panic!("expected hard reset to remote tip, got {other:?}"),
    }
    let r = m.step(ran(true, "", ""));
    all_events.extend(r.events);
    match &r.directive {
        Some(Directive::Run(VcsRequest::Checkout { branch, .. })) => {
            assert_eq!(branch, "feature-x");
        },
        other => panic!("expected restore of the original branch, got {other:?}"),
    }
    let r = m.step(ran(true, "", ""));
    all_events.extend(r.events);
    assert!(matches!(&r.directive, Some(Directive::Run(VcsRequest::StashPop { .. }))));
    let r = m.step(ran(true, "", ""));
    all_events.extend(r.events);
    assert!(r.directive.is_none());
    let sts = statuses_of(&all_events);
    let names: Vec<String> = sts.iter().map(|(_, st)| format!("{st:?}")).collect();
    assert_eq!(
        names,
        vec![
            "Checking".to_string(),
            "Stashing".to_string(),
            "Syncing".to_string(),
            "Fetching".to_string(),
            "Restoring".to_string(),
            "Restoring".to_string(),
            "Synced(Some(2))".to_string(),
        ],
    );
    for (i, _) in &sts {
        assert_eq!(*i, 5);
    }
}

/// A fatal failure after mutation rolls back in reverse order: the original
/// branch is checked out again, then the stash is popped, then `Failed`.
#[test]
fn sync_failure_rolls_back_branch_then_stash() {
    let f = fork("alice", "widget", "org", "main");
    let mut m = SyncMachine::new(SyncJob { index: 1, fork: f }, false);
    let (_evs, r) = to_unpushed(&mut m, true, "feature-x", "");
    assert!(matches!(&r.directive, Some(Directive::Run(VcsRequest::StashPush { .. }))));
    let r = m.step(ran(true, "", ""));
    assert!(matches!(&r.directive, Some(Directive::Run(VcsRequest::Checkout { .. }))));
    let r = m.step(ran(true, "", ""));
    assert!(matches!(&r.directive, Some(Directive::Run(VcsRequest::RemoteSync { .. }))));
    let r = m.step(ran(false, "", "remote rejected"));
    match &r.directive {
        Some(Directive::Run(VcsRequest::Checkout { branch, .. })) => {
            assert_eq!(branch, "feature-x");
        },
        other => panic!("rollback must first restore the branch, got {other:?}"),
    }
    assert!(r.events.is_empty());
    let r = m.step(ran(true, "", ""));
    assert!(matches!(&r.directive, Some(Directive::Run(VcsRequest::StashPop { .. }))));
    let r = m.step(ran(true, "", ""));
    assert!(r.directive.is_none());
    let sts = statuses_of(&r.events);
    match &sts[..] {
        [(1, SyncStatus::Failed(reason))] => assert_eq!(reason, "sync failed"),
        other => panic!("expected terminal failure, got {other:?}"),
    }
}

/// A checkout failure with a stash created pops the stash before failing.
#[test]
fn checkout_failure_pops_stash_before_failing() {
    let f = fork("alice", "widget", "org", "main");
    let mut m = SyncMachine::new(SyncJob { index: 3, fork: f }, false);
    let (_evs, r) = to_unpushed(&mut m, true, "feature-x", "");
    assert!(matches!(&r.directive, Some(Directive::Run(VcsRequest::StashPush { .. }))));
    let r = m.step(ran(true, "", ""));
    assert!(matches!(&r.directive, Some(Directive::Run(VcsRequest::Checkout { .. }))));
    let r = m.step(ran(false, "", "error: pathspec"));
    assert!(matches!(&r.directive, Some(Directive::Run(VcsRequest::StashPop { .. }))));
    assert!(r.events.is_empty());
    let r = m.step(ran(true, "", ""));
    assert!(r.directive.is_none());
    let sts = statuses_of(&r.events);
    match &sts[..] {
        [(3, SyncStatus::Failed(reason))] => assert_eq!(reason, "checkout failed"),
        other => panic!("expected terminal failure, got {other:?}"),
    }
}

#[test]
fn stash_failure_is_fatal_without_rollback() {
    let f = fork("alice", "widget", "org", "main");
    let mut m = SyncMachine::new(SyncJob { index: 0, fork: f }, false);
    let (_evs, r) = to_unpushed(&mut m, true, "main", "");
    assert!(matches!(&r.directive, Some(Directive::Run(VcsRequest::StashPush { .. }))));
    let r = m.step(ran(false, "", "stash blew up"));
    assert!(r.directive.is_none());
    let sts = statuses_of(&r.events);
    match &sts[..] {
        [(0, SyncStatus::Failed(reason))] => assert_eq!(reason, "stash failed"),
        other => panic!("expected terminal failure, got {other:?}"),
    }
}

#[test]
fn clean_on_default_branch_skips_stash_and_checkout() {
    let f = fork("alice", "widget", "org", "main");
    let mut m = SyncMachine::new(SyncJob { index: 0, fork: f }, false);
    let (_evs, r) = to_unpushed(&mut m, false, "main", "");
    assert!(matches!(&r.directive, Some(Directive::Run(VcsRequest::RemoteSync { .. }))));
    let r = m.step(ran(true, "", ""));
    assert!(matches!(
        &r.directive,
        Some(Directive::Run(VcsRequest::PullFastForwardOnly { .. }))
    ));
    let r = m.step(ran(true, "Already up to date.\n", ""));
    assert!(r.directive.is_none());
    let sts = statuses_of(&r.events);
    assert!(matches!(sts[..], [(0, SyncStatus::Synced(Some(2)))]));
}

/// Sync failure with only a stash created (dirty, already on the default
/// branch): the rollback is just the pop, then the terminal failure.
#[test]
fn sync_failure_with_stash_only_pops_then_fails() {
    let f = fork("alice", "widget", "org", "main");
    let mut m = SyncMachine::new(SyncJob { index: 8, fork: f }, false);
    let (_evs, r) = to_unpushed(&mut m, true, "main", "");
    assert!(matches!(&r.directive, Some(Directive::Run(VcsRequest::StashPush { .. }))));
    let r = m.step(ran(true, "", ""));
    assert!(matches!(&r.directive, Some(Directive::Run(VcsRequest::RemoteSync { .. }))));
    let r = m.step(ran(false, "", "remote rejected"));
    assert!(matches!(&r.directive, Some(Directive::Run(VcsRequest::StashPop { .. }))));
    assert!(r.events.is_empty());
    let r = m.step(ran(true, "", ""));
    assert!(r.directive.is_none());
    let sts = statuses_of(&r.events);
    match &sts[..] {
        [(8, SyncStatus::Failed(reason))] => assert_eq!(reason, "sync failed"),
        other => panic!("expected terminal failure, got {other:?}"),
    }
}

/// Sync failure with only a branch change (clean tree, off the default
/// branch): the rollback is just the checkout back, then the failure.
#[test]
fn sync_failure_with_checkout_only_restores_branch_then_fails() {
    let f = fork("alice", "widget", "org", "main");
    let mut m = SyncMachine::new(SyncJob { index: 9, fork: f }, false);
    let (_evs, r) = to_unpushed(&mut m, false, "feature-x", "");
    assert!(matches!(&r.directive, Some(Directive::Run(VcsRequest::Checkout { .. }))));
    let r = m.step(ran(true, "", ""));
    assert!(matches!(&r.directive, Some(Directive::Run(VcsRequest::RemoteSync { .. }))));
    let r = m.step(ran(false, "", "remote rejected"));
    match &r.directive {
        Some(Directive::Run(VcsRequest::Checkout { branch, .. })) => {
            assert_eq!(branch, "feature-x");
        },
        other => panic!("rollback must restore the branch, got {other:?}"),
    }
    let r = m.step(ran(true, "", ""));
    assert!(r.directive.is_none());
    let sts = statuses_of(&r.events);
    match &sts[..] {
        [(9, SyncStatus::Failed(reason))] => assert_eq!(reason, "sync failed"),
        other => panic!("expected terminal failure, got {other:?}"),
    }
}

/// Sync failure with nothing mutated (clean tree, on the default branch):
/// no rollback command runs; the failure is immediate.
#[test]
fn sync_failure_with_nothing_mutated_fails_immediately() {
    let f = fork("alice", "widget", "org", "main");
    let mut m = SyncMachine::new(SyncJob { index: 1, fork: f }, false);
    let (_evs, r) = to_unpushed(&mut m, false, "main", "");
    assert!(matches!(&r.directive, Some(Directive::Run(VcsRequest::RemoteSync { .. }))));
    let r = m.step(ran(false, "", "remote rejected"));
    assert!(r.directive.is_none());
    let sts = statuses_of(&r.events);
    match &sts[..] {
        [(1, SyncStatus::Failed(reason))] => assert_eq!(reason, "sync failed"),
        other => panic!("expected immediate terminal failure, got {other:?}"),
    }
}

/// Checkout failure without a stash (clean tree, off the default branch):
/// nothing to pop; the failure is immediate.
#[test]
fn checkout_failure_without_stash_fails_immediately() {
    let f = fork("alice", "widget", "org", "main");
    let mut m = SyncMachine::new(SyncJob { index: 6, fork: f }, false);
    let (_evs, r) = to_unpushed(&mut m, false, "feature-x", "");
    assert!(matches!(&r.directive, Some(Directive::Run(VcsRequest::Checkout { .. }))));
    let r = m.step(ran(false, "", "error: pathspec"));
    assert!(r.directive.is_none());
    let sts = statuses_of(&r.events);
    match &sts[..] {
        [(6, SyncStatus::Failed(reason))] => assert_eq!(reason, "checkout failed"),
        other => panic!("expected immediate terminal failure, got {other:?}"),
    }
}

/// A failed rollback pop still ends in the terminal failure.
#[test]
fn failed_rollback_pop_still_reports_the_sync_failure() {
    let f = fork("alice", "widget", "org", "main");
    let mut m = SyncMachine::new(SyncJob { index: 0, fork: f }, false);
    let (_evs, r) = to_unpushed(&mut m, true, "main", "");
    assert!(matches!(&r.directive, Some(Directive::Run(VcsRequest::StashPush { .. }))));
    m.step(ran(true, "", ""));
    let r = m.step(ran(false, "", "remote rejected"));
    assert!(matches!(&r.directive, Some(Directive::Run(VcsRequest::StashPop { .. }))));
    let r = m.step(ran(false, "", "no stash entries"));
    assert!(r.directive.is_none());
    let sts = statuses_of(&r.events);
    match &sts[..] {
        [(0, SyncStatus::Failed(reason))] => assert_eq!(reason, "sync failed"),
        other => panic!("expected terminal failure, got {other:?}"),
    }
}
