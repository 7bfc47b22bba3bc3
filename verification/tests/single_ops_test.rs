use repo_syncer::invoke::{Directive, Outcome, VcsRequest};
use repo_syncer::single::{ArchiveMachine, CloneMachine, DeleteMachine};
use repo_syncer::types::{Fork, SyncJob, SyncResult, SyncStatus};

fn fork(owner: &str, name: &str) -> Fork {
    Fork {
        name: name.to_string(),
        owner: owner.to_string(),
        parent_owner: "up".to_string(),
        parent_name: name.to_string(),
        default_branch: "main".to_string(),
        local_path: format!("/tmp/dev/{owner}/{name}"),
        is_cloned: false,
        description: None,
        primary_language: None,
        created_at: None,
        updated_at: None,
    }
}

fn ran(success: bool, stderr: &str) -> Outcome {
    Outcome::Ran { success, stdout: String::new(), stderr: stderr.to_string() }
}

/// Clone success: exactly one structural event, then exactly one terminal
/// status, in that order.
#[test]
fn clone_success_emits_structural_then_terminal() {
    let mut m = CloneMachine::new(SyncJob { index: 6, fork: fork("a", "r") }, false);
    let r = m.start();
    assert!(matches!(
        &r.events[..],
        [SyncResult::StatusUpdate(6, SyncStatus::Cloning)]
    ));
    assert!(matches!(
        &r.directive,
        Some(Directive::Run(VcsRequest::EnsureParentDir { .. }))
    ));
    let r = m.step(ran(true, ""));
    match &r.directive {
        Some(Directive::Run(VcsRequest::RemoteClone { owner, name, dest })) => {
            assert_eq!(owner, "a");
            assert_eq!(name, "r");
            assert_eq!(dest, "/tmp/dev/a/r");
        },
        other => panic!("expected the clone command, got {other:?}"),
    }
    let r = m.step(ran(true, ""));
    assert!(r.directive.is_none());
    assert_eq!(r.events.len(), 2);
    assert!(matches!(r.events[0], SyncResult::ForkCloned(6)));
    assert!(matches!(r.events[1], SyncResult::StatusUpdate(6, SyncStatus::Synced(None))));
}

#[test]
fn clone_dry_run_never_invokes_and_matches_real_success_shape() {
    let mut m = CloneMachine::new(SyncJob { index: 1, fork: fork("a", "r") }, true);
    let r = m.start();
    assert!(matches!(r.directive, Some(Directive::Pause(500))));
    let r = m.step(Outcome::Elapsed);
    assert!(r.directive.is_none());
    assert!(matches!(r.events[0], SyncResult::ForkCloned(1)));
    assert!(matches!(r.events[1], SyncResult::StatusUpdate(1, SyncStatus::Synced(None))));
}

#[test]
fn clone_parent_dir_failure_is_fatal() {
    let mut m = CloneMachine::new(SyncJob { index: 0, fork: fork("a", "r") }, false);
    m.start();
    let r = m.step(ran(false, "permission denied"));
    assert!(r.directive.is_none());
    match &r.events[..] {
        [SyncResult::StatusUpdate(0, SyncStatus::Failed(msg))] => {
            assert_eq!(msg, "mkdir: permission denied");
        },
        other => panic!("expected one failure, got {other:?}"),
    }
}

/// Archive success: exactly one structural event, then exactly one terminal
/// status, in that order.
#[test]
fn archive_success_emits_structural_then_terminal() {
    let mut m = ArchiveMachine::new(SyncJob { index: 9, fork: fork("a", "r") }, false);
    let r = m.start();
    assert!(matches!(
        &r.events[..],
        [SyncResult::StatusUpdate(9, SyncStatus::Archiving)]
    ));
    assert!(matches!(
        &r.directive,
        Some(Directive::Run(VcsRequest::RemoteArchive { .. }))
    ));
    let r = m.step(ran(true, ""));
    assert!(r.directive.is_none());
    assert_eq!(r.events.len(), 2);
    assert!(matches!(r.events[0], SyncResult::ForkArchived(9)));
    assert!(matches!(r.events[1], SyncResult::StatusUpdate(9, SyncStatus::Synced(None))));
}

#[test]
fn archive_failure_reason_is_truncated() {
    let mut m = ArchiveMachine::new(SyncJob { index: 0, fork: fork("a", "r") }, false);
    m.start();
    let r = m.step(ran(false, "this error message is much longer than thirty characters"));
    match &r.events[..] {
        [SyncResult::StatusUpdate(0, SyncStatus::Failed(msg))] => {
            assert_eq!(msg, "this error message is much ...");
        },
        other => panic!("expected one failure, got {other:?}"),
    }
}

/// Delete success: the local clone is removed first, then the remote delete
/// runs; exactly one structural event precedes exactly one terminal status.
#[test]
fn delete_success_removes_local_then_remote() {
    let mut m = DeleteMachine::new(SyncJob { index: 2, fork: fork("a", "r") }, false);
    let r = m.start();
    assert!(matches!(
        &r.events[..],
        [SyncResult::StatusUpdate(2, SyncStatus::Deleting)]
    ));
    assert!(matches!(&r.directive, Some(Directive::CheckLocal(_))));
    let r = m.step(Outcome::LocalExists(true));
    assert!(matches!(
        &r.directive,
        Some(Directive::Run(VcsRequest::RemoveLocalDir { .. }))
    ));
    let r = m.step(ran(true, ""));
    assert!(matches!(
        &r.directive,
        Some(Directive::Run(VcsRequest::RemoteDelete { .. }))
    ));
    let r = m.step(ran(true, ""));
    assert!(r.directive.is_none());
    assert_eq!(r.events.len(), 2);
    assert!(matches!(r.events[0], SyncResult::ForkDeleted(2)));
    assert!(matches!(r.events[1], SyncResult::StatusUpdate(2, SyncStatus::Synced(None))));
}

#[test]
fn delete_skips_local_removal_when_not_cloned() {
    let mut m = DeleteMachine::new(SyncJob { index: 2, fork: fork("a", "r") }, false);
    m.start();
    let r = m.step(Outcome::LocalExists(false));
    assert!(matches!(
        &r.directive,
        Some(Directive::Run(VcsRequest::RemoteDelete { .. }))
    ));
}

#[test]
fn delete_local_removal_failure_is_fatal_before_remote() {
    let mut m = DeleteMachine::new(SyncJob { index: 2, fork: fork("a", "r") }, false);
    m.start();
    m.step(Outcome::LocalExists(true));
    let r = m.step(ran(false, "device busy"));
    assert!(r.directive.is_none());
    match &r.events[..] {
        [SyncResult::StatusUpdate(2, SyncStatus::Failed(msg))] => {
            assert_eq!(msg, "rm local: device busy");
        },
        other => panic!("expected one failure, got {other:?}"),
    }
}

/// A missing-scope delete failure never ends `Failed`: the row reverts to
/// `Pending` and exactly one actionable error is emitted.
#[test]
fn delete_missing_scope_reverts_to_pending_with_actionable_error() {
    let mut m = DeleteMachine::new(SyncJob { index: 3, fork: fork("alice", "widget") }, false);
    m.start();
    m.step(Outcome::LocalExists(false));
    let r = m.step(ran(
        false,
        "HTTP 403: This API operation needs the \"delete_repo\" scope",
    ));
    assert!(r.directive.is_none());
    assert_eq!(r.events.len(), 2);
    assert!(matches!(r.events[0], SyncResult::StatusUpdate(3, SyncStatus::Pending)));
    match &r.events[1] {
        SyncResult::ActionableError(d) => {
            assert_eq!(d.title, "Missing GitHub Scope");
            assert!(d.message.contains("Cannot delete alice/widget"));
            assert!(d.message.contains("gh auth refresh -h github.com -s delete_repo"));
            assert!(d.action.is_none());
        },
        other => panic!("expected the actionable error, got {other:?}"),
    }
    for ev in &r.events {
        assert!(
            !matches!(ev, SyncResult::StatusUpdate(_, SyncStatus::Failed(_))),
            "a missing-scope delete must never surface a terminal failure",
        );
    }
}

#[test]
fn delete_other_failure_is_terminal() {
    let mut m = DeleteMachine::new(SyncJob { index: 3, fork: fork("a", "r") }, false);
    m.start();
    m.step(Outcome::LocalExists(false));
    let r = m.step(ran(false, "HTTP 404: Not Found"));
    match &r.events[..] {
        [SyncResult::StatusUpdate(3, SyncStatus::Failed(msg))] => {
            assert_eq!(msg, "HTTP 404: Not Found");
        },
        other => panic!("expected one failure, got {other:?}"),
    }
}

#[test]
fn archive_and_delete_dry_runs_invoke_nothing() {
    let mut a = ArchiveMachine::new(SyncJob { index: 0, fork: fork("a", "r") }, true);
    let r = a.start();
    assert!(matches!(r.directive, Some(Directive::Pause(500))));
    let r = a.step(Outcome::Elapsed);
    assert!(r.directive.is_none());
    assert!(matches!(r.events[0], SyncResult::ForkArchived(0)));

    let mut d = DeleteMachine::new(SyncJob { index: 0, fork: fork("a", "r") }, true);
    let r = d.start();
    assert!(matches!(r.directive, Some(Directive::Pause(500))));
    let r = d.step(Outcome::Elapsed);
    assert!(r.directive.is_none());
    assert!(matches!(r.events[0], SyncResult::ForkDeleted(0)));
    assert!(matches!(r.events[1], SyncResult::StatusUpdate(0, SyncStatus::Synced(None))));
}
