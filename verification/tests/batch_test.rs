use repo_syncer::batch::BatchRunner;
use repo_syncer::invoke::{Directive, Outcome, VcsRequest};
use repo_syncer::types::{Fork, SyncJob, SyncResult, SyncStatus};

fn fork(owner: &str, name: &str) -> Fork {
    Fork {
        name: name.to_string(),
        owner: owner.to_string(),
        parent_owner: "up".to_string(),
        parent_name: name.to_string(),
        default_branch: "main".to_string(),
        local_path: format!("/tmp/dev/{owner}/{name}"),
        is_cloned: false,
        description: None,
        primary_language: None,
        created_at: None,
        updated_at: None,
    }
}

fn drive_dry(b: &mut BatchRunner) -> Vec<SyncResult> {
    let mut events = Vec::new();
    let mut r = b.start();
    loop {
        events.append(&mut r.events);
        match r.directive {
            Some(Directive::Pause(_)) => {
                r = b.step(Outcome::Elapsed);
            },
            Some(other) => panic!("a dry batch asked for {other:?}"),
            None => break,
        }
    }
    events
}

/// Scenario: a batch of five selected forks runs strictly sequentially — all
/// progress events of one job are observed before the next job's first event.
#[test]
fn batch_of_five_reports_strictly_in_order() {
    let jobs: Vec<SyncJob> = (0..5)
        .map(|i| SyncJob { index: 10 + i, fork: fork("a", &format!("r{i}")) })
        .collect();
    let mut b = BatchRunner::new(jobs, true);
    let events = drive_dry(&mut b);
    let indices: Vec<usize> = events
        .iter()
        .map(|e| match e {
            SyncResult::StatusUpdate(i, _) => *i,
            other => panic!("unexpected event {other:?}"),
        })
        .collect();
    assert_eq!(indices, vec![10, 10, 11, 11, 12, 12, 13, 13, 14, 14]);
    for (pos, ev) in events.iter().enumerate() {
        let expected_terminal = pos % 2 == 1;
        match ev {
            SyncResult::StatusUpdate(_, SyncStatus::Synced(_))
            | SyncResult::StatusUpdate(_, SyncStatus::Skipped(_))
            | SyncResult::StatusUpdate(_, SyncStatus::Failed(_)) => {
                assert!(expected_terminal, "terminal event out of place at {pos}");
            },
            _ => assert!(!expected_terminal, "expected a terminal event at {pos}"),
        }
    }
}

#[test]
fn empty_batch_finishes_immediately() {
    let mut b = BatchRunner::new(Vec::new(), false);
    let r = b.start();
    assert!(r.events.is_empty());
    assert!(r.directive.is_none());
}

/// A two-job batch against canned command outcomes: the first job's terminal
/// status arrives before the second job's first event.
#[test]
fn batch_sequences_real_runs() {
    let jobs = vec![
        SyncJob { index: 0, fork: fork("a", "one") },
        SyncJob { index: 1, fork: fork("a", "two") },
    ];
    let mut b = BatchRunner::new(jobs, false);
    let mut events = Vec::new();
    let mut pauses = Vec::new();
    let mut r = b.start();
    loop {
        events.append(&mut r.events);
        let next = match &r.directive {
            Some(Directive::Pause(ms)) => {
                pauses.push(*ms);
                Outcome::Elapsed
            },
            Some(Directive::CheckLocal(_)) => Outcome::LocalExists(false),
            Some(Directive::Run(rq)) => match rq {
                VcsRequest::RemoteCommitsBehind { .. } => Outcome::Ran {
                    success: true,
                    stdout: "1".to_string(),
                    stderr: String::new(),
                },
                _ => Outcome::Ran {
                    success: true,
                    stdout: String::new(),
                    stderr: String::new(),
                },
            },
            None => break,
        };
        r = b.step(next);
    }
    let indices: Vec<usize> = events
        .iter()
        .map(|e| match e {
            SyncResult::StatusUpdate(i, _) => *i,
            other => panic!("unexpected event {other:?}"),
        })
        .collect();
    let first_of_second = indices.iter().position(|&i| i == 1).unwrap();
    assert!(indices[..first_of_second].iter().all(|&i| i == 0));
    match &events[first_of_second - 1] {
        SyncResult::StatusUpdate(0, SyncStatus::Synced(Some(1))) => {},
        other => panic!("job 0 must end before job 1 starts, got {other:?}"),
    }
    assert_eq!(pauses, vec![100, 100], "one fixed pause after each finished job");
}
