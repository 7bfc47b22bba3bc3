use repo_syncer::cache::{cache_is_fresh, fork_cache_id, fork_from_cache_row};
use repo_syncer::github::{fork_from_listing, refresh_event};
use repo_syncer::types::{
    fork_local_path, relative_age_label, Fork, SyncResult, SyncStatus, Toast, ToastLevel,
};

#[test]
fn status_display_texts() {
    assert_eq!(SyncStatus::Pending.display(), "Pending");
    assert_eq!(SyncStatus::Checking.display(), "Checking");
    assert_eq!(SyncStatus::Synced(None).display(), "Synced");
    assert_eq!(SyncStatus::Synced(Some(0)).display(), "Up-to-date");
    assert_eq!(SyncStatus::Synced(Some(5)).display(), "+5 commits");
    assert_eq!(SyncStatus::Synced(Some(120)).display(), "+120 commits");
    assert_eq!(SyncStatus::Skipped("unpushed commits".to_string()).display(), "unpushed commits");
    assert_eq!(SyncStatus::Failed("sync failed".to_string()).display(), "sync failed");
}

#[test]
fn toast_constructors_carry_their_level() {
    let t = Toast::info("hello".to_string(), 42);
    assert_eq!(t.message, "hello");
    assert_eq!(t.level, ToastLevel::Info);
    assert_eq!(t.created_at_ms, 42);
    let t = Toast::success("done".to_string(), 1);
    assert_eq!(t.level, ToastLevel::Success);
    let t = Toast::error("bad".to_string(), 2);
    assert_eq!(t.level, ToastLevel::Error);
}

#[test]
fn listing_entry_becomes_fork() {
    let f = fork_from_listing(
        "widget".to_string(),
        "alice".to_string(),
        Some(("org".to_string(), "widget".to_string())),
        Some("develop".to_string()),
        false,
        Some("a desc".to_string()),
        Some("Rust".to_string()),
        Some("2024-01-01T00:00:00Z".to_string()),
        Some("not a timestamp".to_string()),
        "/home/u/dev",
        true,
    )
    .unwrap();
    assert_eq!(f.name, "widget");
    assert_eq!(f.owner, "alice");
    assert_eq!(f.parent_owner, "org");
    assert_eq!(f.parent_name, "widget");
    assert_eq!(f.default_branch, "develop");
    assert_eq!(f.local_path, "/home/u/dev/alice/widget");
    assert!(f.is_cloned);
    assert_eq!(f.description.as_deref(), Some("a desc"));
    assert_eq!(f.primary_language.as_deref(), Some("Rust"));
    assert_eq!(f.created_at, Some(1704067200));
    assert_eq!(f.updated_at, None);
}

#[test]
fn listing_skips_archived_and_parentless() {
    let archived = fork_from_listing(
        "r".to_string(),
        "a".to_string(),
        Some(("p".to_string(), "r".to_string())),
        None,
        true,
        None,
        None,
        None,
        None,
        "/d",
        false,
    );
    assert!(archived.is_none());
    let no_parent = fork_from_listing(
        "r".to_string(),
        "a".to_string(),
        None,
        None,
        false,
        None,
        None,
        None,
        None,
        "/d",
        false,
    );
    assert!(no_parent.is_none());
}

#[test]
fn listing_default_branch_falls_back_to_main() {
    let f = fork_from_listing(
        "r".to_string(),
        "a".to_string(),
        Some(("p".to_string(), "r".to_string())),
        None,
        false,
        None,
        None,
        None,
        None,
        "/d",
        false,
    )
    .unwrap();
    assert_eq!(f.default_branch, "main");
}

#[test]
fn cache_row_round_trips_fields() {
    let f = fork_from_cache_row(
        "widget".to_string(),
        "alice".to_string(),
        "org".to_string(),
        "widget".to_string(),
        "main".to_string(),
        None,
        Some("Go".to_string()),
        Some("2020-06-01T12:00:00+02:00".to_string()),
        None,
        "/home/u/dev",
        false,
    );
    assert_eq!(f.local_path, "/home/u/dev/alice/widget");
    assert_eq!(f.created_at, Some(1591005600));
    assert_eq!(f.updated_at, None);
    assert!(!f.is_cloned);
}

#[test]
fn cache_id_and_local_path() {
    assert_eq!(fork_cache_id("alice", "widget"), "alice/widget");
    assert_eq!(fork_local_path("/home/u/dev", "alice", "widget"), "/home/u/dev/alice/widget");
}

#[test]
fn freshness_is_a_day() {
    assert!(cache_is_fresh(Some(1_000_000), 1_000_000));
    assert!(cache_is_fresh(Some(1_000_000), 1_000_000 + 86399));
    assert!(!cache_is_fresh(Some(1_000_000), 1_000_000 + 86400));
    assert!(!cache_is_fresh(None, 1_000_000));
}

#[test]
fn refresh_event_shapes() {
    let f = Fork {
        name: "r".to_string(),
        owner: "a".to_string(),
        parent_owner: "p".to_string(),
        parent_name: "r".to_string(),
        default_branch: "main".to_string(),
        local_path: "/d/a/r".to_string(),
        is_cloned: false,
        description: None,
        primary_language: None,
        created_at: None,
        updated_at: None,
    };
    match refresh_event(Ok(vec![f])) {
        SyncResult::ForksRefreshed(list) => assert_eq!(list.len(), 1),
        other => panic!("expected a replacement event, got {other:?}"),
    }
    match refresh_event(Err("offline".to_string())) {
        SyncResult::RefreshFailed(m) => assert_eq!(m, "offline"),
        other => panic!("expected a failure event, got {other:?}"),
    }
}

#[test]
fn relative_age_labels() {
    const DAY: i64 = 86400;
    assert_eq!(relative_age_label(1000, 500), "today");
    assert_eq!(relative_age_label(0, DAY - 1), "today");
    assert_eq!(relative_age_label(0, DAY), "yesterday");
    assert_eq!(relative_age_label(0, 3 * DAY), "3 days ago");
    assert_eq!(relative_age_label(0, 7 * DAY), "1 week ago");
    assert_eq!(relative_age_label(0, 15 * DAY), "2 weeks ago");
    assert_eq!(relative_age_label(0, 30 * DAY), "1 month ago");
    assert_eq!(relative_age_label(0, 200 * DAY), "6 months ago");
    assert_eq!(relative_age_label(0, 365 * DAY), "1 year ago");
    assert_eq!(relative_age_label(0, 1000 * DAY), "2 years ago");
}
