use repo_syncer::app::App;
use repo_syncer::types::{
    CacheStatus, ErrorDetails, Fork, SyncResult, SyncStatus,
};

fn fork(owner: &str, name: &str, parent_owner: &str, lang: Option<&str>, cloned: bool) -> Fork {
    Fork {
        name: name.to_string(),
        owner: owner.to_string(),
        parent_owner: parent_owner.to_string(),
        parent_name: name.to_string(),
        default_branch: "main".to_string(),
        local_path: format!("/d/{owner}/{name}"),
        is_cloned: cloned,
        description: None,
        primary_language: lang.map(|l| l.to_string()),
        created_at: None,
        updated_at: None,
    }
}

fn three_forks() -> Vec<Fork> {
    vec![
        fork("a", "alpha", "org", Some("Rust"), true),
        fork("a", "beta", "org", Some("Rust"), false),
        fork("a", "gamma", "other", Some("Go"), true),
    ]
}

fn app3() -> App {
    App::new(three_forks(), false, "/d".to_string(), CacheStatus::Fresh)
}

#[test]
fn new_app_starts_clean() {
    let app = app3();
    assert_eq!(app.statuses.len(), 3);
    assert!(app.statuses.iter().all(|s| matches!(s, SyncStatus::Pending)));
    assert!(app.selected.iter().all(|s| !s));
    assert_eq!(app.search_results, vec![0, 1, 2]);
    assert_eq!(app.cursor, Some(0));
    assert_eq!(app.visible_forks(), &vec![0, 1, 2]);
}

#[test]
fn cursor_wraps_both_ways() {
    let mut app = app3();
    app.next();
    assert_eq!(app.cursor, Some(1));
    app.next();
    app.next();
    assert_eq!(app.cursor, Some(0));
    app.previous();
    assert_eq!(app.cursor, Some(2));
}

#[test]
fn toggle_and_count_selection() {
    let mut app = app3();
    assert_eq!(app.selected_count(), 0);
    app.toggle_selection();
    assert_eq!(app.selected, vec![true, false, false]);
    app.next();
    app.toggle_selection();
    assert_eq!(app.selected_count(), 2);
    app.toggle_selection();
    assert_eq!(app.selected_count(), 1);
}

#[test]
fn select_all_toggles_everything_visible() {
    let mut app = app3();
    app.select_all();
    assert_eq!(app.selected, vec![true, true, true]);
    app.select_all();
    assert_eq!(app.selected, vec![false, false, false]);
    app.toggle_selection();
    app.select_all();
    assert_eq!(app.selected, vec![true, true, true]);
}

#[test]
fn current_fork_follows_cursor() {
    let mut app = app3();
    assert_eq!(app.current_fork().unwrap().name, "alpha");
    app.next();
    assert_eq!(app.current_fork_index(), Some(1));
    assert_eq!(app.current_fork().unwrap().name, "beta");
}

#[test]
fn is_all_done_and_summary_look_only_at_selected() {
    let mut app = app3();
    app.selected = vec![true, true, false];
    app.statuses = vec![
        SyncStatus::Synced(Some(2)),
        SyncStatus::Skipped("unpushed commits".to_string()),
        SyncStatus::Pending,
    ];
    assert!(app.is_all_done());
    assert_eq!(app.summary(), (1, 1, 0));
    app.statuses[1] = SyncStatus::Syncing;
    assert!(!app.is_all_done());
    app.statuses[1] = SyncStatus::Failed("sync failed".to_string());
    assert_eq!(app.summary(), (1, 0, 1));
}

#[test]
fn mark_selected_and_reset_round() {
    let mut app = app3();
    app.selected = vec![true, false, true];
    app.statuses = vec![
        SyncStatus::Failed("x".to_string()),
        SyncStatus::Synced(None),
        SyncStatus::Synced(None),
    ];
    app.mark_selected_as_pending();
    assert!(matches!(app.statuses[0], SyncStatus::Pending));
    assert!(matches!(app.statuses[1], SyncStatus::Synced(None)));
    assert!(matches!(app.statuses[2], SyncStatus::Pending));
    app.statuses = vec![
        SyncStatus::Failed("x".to_string()),
        SyncStatus::Synced(None),
        SyncStatus::Synced(None),
    ];
    app.reset_for_next_round();
    assert!(app.statuses.iter().all(|s| matches!(s, SyncStatus::Pending)));
    assert_eq!(app.selected, vec![true, false, false]);
    assert_eq!(app.modal_button, 1);
}

#[test]
fn forks_to_sync_snapshots_selected_rows() {
    let mut app = app3();
    app.selected = vec![true, false, true];
    let jobs = app.forks_to_sync();
    assert_eq!(jobs.len(), 2);
    assert_eq!(jobs[0].index, 0);
    assert_eq!(jobs[0].fork.name, "alpha");
    assert_eq!(jobs[1].index, 2);
    assert_eq!(jobs[1].fork.name, "gamma");
}

#[test]
fn search_filters_and_ranks() {
    let mut app = app3();
    app.search_query = "org/alpha".to_string();
    app.update_search();
    assert_eq!(app.search_results, vec![0]);
    assert_eq!(app.cursor, Some(0));

    app.search_query = "zzzz".to_string();
    app.update_search();
    assert!(app.search_results.is_empty());
    assert_eq!(app.cursor, None);

    app.search_query = String::new();
    app.update_search();
    assert_eq!(app.search_results, vec![0, 1, 2]);
    assert_eq!(app.cursor, Some(0));

    app.search_query = "org/".to_string();
    app.update_search();
    assert_eq!(app.search_results.len(), 2);
    assert!(app.search_results.contains(&0));
    assert!(app.search_results.contains(&1));
}

#[test]
fn compute_stats_counts_rows_and_languages() {
    let mut app = app3();
    app.statuses = vec![
        SyncStatus::Synced(None),
        SyncStatus::Failed("x".to_string()),
        SyncStatus::Pending,
    ];
    app.compute_stats();
    let st = app.stats_cache.as_ref().unwrap();
    assert_eq!(st.total, 3);
    assert_eq!(st.cloned, 2);
    assert_eq!(st.uncloned, 1);
    assert_eq!(st.synced, 1);
    assert_eq!(st.failed, 1);
    assert_eq!(st.pending, 1);
    assert!(st.by_language.len() <= 8);
    let rust = st.by_language.iter().find(|e| e.0 == "Rust").unwrap();
    assert_eq!(rust.1, 2);
    let go = st.by_language.iter().find(|e| e.0 == "Go").unwrap();
    assert_eq!(go.1, 1);
    assert_eq!(st.by_language[0].0, "Rust");
}

#[test]
fn apply_status_update_overwrites_one_row() {
    let mut app = app3();
    app.apply_event(SyncResult::StatusUpdate(1, SyncStatus::Syncing), 0);
    assert!(matches!(app.statuses[1], SyncStatus::Syncing));
    assert!(matches!(app.statuses[0], SyncStatus::Pending));
    app.apply_event(SyncResult::StatusUpdate(99, SyncStatus::Syncing), 0);
    assert_eq!(app.statuses.len(), 3);
}

#[test]
fn apply_cloned_marks_the_row() {
    let mut app = app3();
    assert!(!app.forks[1].is_cloned);
    app.apply_event(SyncResult::ForkCloned(1), 0);
    assert!(app.forks[1].is_cloned);
    assert_eq!(app.forks[1].name, "beta");
}

#[test]
fn apply_deleted_removes_the_row_once() {
    let mut app = app3();
    app.apply_event(SyncResult::ForkDeleted(1), 0);
    assert_eq!(app.forks.len(), 2);
    assert_eq!(app.forks[0].name, "alpha");
    assert_eq!(app.forks[1].name, "gamma");
    assert_eq!(app.statuses.len(), 2);
    assert_eq!(app.selected.len(), 2);
    assert_eq!(app.search_results, vec![0, 1]);
}

#[test]
fn apply_refresh_replaces_the_list() {
    let mut app = app3();
    app.selected = vec![true, true, true];
    let replacement = vec![fork("b", "new", "org", None, false)];
    app.apply_event(SyncResult::ForksRefreshed(replacement), 0);
    assert_eq!(app.forks.len(), 1);
    assert_eq!(app.forks[0].name, "new");
    assert_eq!(app.statuses.len(), 1);
    assert!(matches!(app.statuses[0], SyncStatus::Pending));
    assert_eq!(app.selected, vec![false]);
    assert_eq!(app.search_results, vec![0]);
    assert_eq!(app.cache_status, CacheStatus::Fresh);
}

#[test]
fn apply_refresh_failure_marks_offline() {
    let mut app = app3();
    app.apply_event(SyncResult::RefreshFailed("no network".to_string()), 7);
    assert_eq!(app.cache_status, CacheStatus::Offline);
    let (msg, at) = app.status_message.clone().unwrap();
    assert_eq!(msg, "no network");
    assert_eq!(at, 7);
}

#[test]
fn apply_actionable_error_opens_the_popup() {
    let mut app = app3();
    let details = ErrorDetails {
        title: "Missing GitHub Scope".to_string(),
        message: "m".to_string(),
        action: None,
    };
    app.apply_event(SyncResult::ActionableError(details), 0);
    assert!(app.error_details.is_some());
    assert_eq!(app.modal_button, 1);
}

#[test]
fn spinner_advances_on_interval_and_message_expires() {
    let mut app = app3();
    app.last_tick_ms = 1000;
    app.show_message("hi", 1000);
    app.tick_spinner(1030);
    assert_eq!(app.spinner_tick, 0);
    app.tick_spinner(1085);
    assert_eq!(app.spinner_tick, 1);
    assert!(app.status_message.is_some());
    app.tick_spinner(4100);
    assert!(app.status_message.is_none());
    assert_eq!(app.spinner_tick, 2);
    assert_eq!(app.spinner(), "-");
}

#[test]
fn remove_fork_out_of_range_changes_nothing() {
    let mut app = app3();
    app.remove_fork(9);
    assert_eq!(app.forks.len(), 3);
}
