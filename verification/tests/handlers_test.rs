use repo_syncer::app::App;
use repo_syncer::handlers::{
    execute_modal_action, handle_confirm_modal, handle_error_popup, handle_search_mode,
    handle_selecting_mode, Key, UiEffect,
};
use repo_syncer::types::{
    CacheStatus, ErrorAction, ErrorDetails, Fork, ModalAction, Mode, SyncStatus,
};

fn fork(name: &str, cloned: bool) -> Fork {
    Fork {
        name: name.to_string(),
        owner: "a".to_string(),
        parent_owner: "org".to_string(),
        parent_name: name.to_string(),
        default_branch: "main".to_string(),
        local_path: format!("/d/a/{name}"),
        is_cloned: cloned,
        description: None,
        primary_language: None,
        created_at: None,
        updated_at: None,
    }
}

fn app2() -> App {
    App::new(
        vec![fork("alpha", true), fork("beta", false)],
        false,
        "/d".to_string(),
        CacheStatus::Fresh,
    )
}

#[test]
fn quit_keys_quit() {
    let mut app = app2();
    assert!(matches!(handle_selecting_mode(&mut app, Key::Char('q'), 0), UiEffect::Quit));
    assert!(matches!(handle_selecting_mode(&mut app, Key::Esc, 0), UiEffect::Quit));
}

#[test]
fn enter_with_no_selection_selects_current_and_confirms() {
    let mut app = app2();
    handle_selecting_mode(&mut app, Key::Enter, 0);
    assert_eq!(app.mode, Mode::ConfirmModal);
    assert_eq!(app.modal_action, ModalAction::Sync);
    assert_eq!(app.selected, vec![true, false]);
}

#[test]
fn navigation_and_selection_keys() {
    let mut app = app2();
    handle_selecting_mode(&mut app, Key::Char('j'), 0);
    assert_eq!(app.cursor, Some(1));
    handle_selecting_mode(&mut app, Key::Char('k'), 0);
    assert_eq!(app.cursor, Some(0));
    handle_selecting_mode(&mut app, Key::Char(' '), 0);
    assert_eq!(app.selected, vec![true, false]);
    handle_selecting_mode(&mut app, Key::Char('a'), 0);
    assert_eq!(app.selected, vec![true, true]);
}

#[test]
fn clone_key_on_cloned_fork_only_messages() {
    let mut app = app2();
    handle_selecting_mode(&mut app, Key::Char('c'), 5);
    assert_eq!(app.mode, Mode::Selecting);
    assert_eq!(app.status_message.clone().unwrap().0, "Already cloned");
    app.next();
    handle_selecting_mode(&mut app, Key::Char('c'), 5);
    assert_eq!(app.mode, Mode::ConfirmModal);
    assert_eq!(app.modal_action, ModalAction::Clone);
}

#[test]
fn open_and_edit_keys_hand_out_effects() {
    let mut app = app2();
    match handle_selecting_mode(&mut app, Key::Char('o'), 0) {
        UiEffect::OpenBrowser { owner, name } => {
            assert_eq!(owner, "a");
            assert_eq!(name, "alpha");
        },
        other => panic!("expected a browser effect, got {other:?}"),
    }
    match handle_selecting_mode(&mut app, Key::Char('e'), 0) {
        UiEffect::OpenEditor { path } => assert_eq!(path, "/d/a/alpha"),
        other => panic!("expected an editor effect, got {other:?}"),
    }
    app.next();
    assert!(matches!(
        handle_selecting_mode(&mut app, Key::Char('e'), 0),
        UiEffect::Nothing
    ));
    assert_eq!(app.status_message.clone().unwrap().0, "Not cloned yet");
}

#[test]
fn refresh_key_starts_the_background_refresh() {
    let mut app = app2();
    match handle_selecting_mode(&mut app, Key::Char('R'), 0) {
        UiEffect::StartRefresh => {},
        other => panic!("expected a refresh effect, got {other:?}"),
    }
    assert_eq!(app.cache_status, CacheStatus::Stale { refreshing: true });
}

#[test]
fn stats_and_search_keys_switch_modes() {
    let mut app = app2();
    handle_selecting_mode(&mut app, Key::Char('d'), 0);
    assert_eq!(app.mode, Mode::StatsOverlay);
    assert!(app.stats_cache.is_some());
    app.mode = Mode::Selecting;
    handle_selecting_mode(&mut app, Key::Char('/'), 0);
    assert_eq!(app.mode, Mode::Search);
    assert_eq!(app.search_query, "");
}

#[test]
fn search_mode_edits_query_and_filters() {
    let mut app = app2();
    app.mode = Mode::Search;
    handle_search_mode(&mut app, Key::Char('b'));
    handle_search_mode(&mut app, Key::Char('e'));
    assert_eq!(app.search_query, "be");
    assert_eq!(app.search_results, vec![1]);
    handle_search_mode(&mut app, Key::Backspace);
    assert_eq!(app.search_query, "b");
    handle_search_mode(&mut app, Key::Esc);
    assert_eq!(app.mode, Mode::Selecting);
    assert_eq!(app.search_query, "");
    assert_eq!(app.search_results, vec![0, 1]);
}

#[test]
fn confirm_modal_buttons_and_cancel() {
    let mut app = app2();
    app.mode = Mode::ConfirmModal;
    handle_confirm_modal(&mut app, Key::Left);
    assert_eq!(app.modal_button, 0);
    handle_confirm_modal(&mut app, Key::Tab);
    assert_eq!(app.modal_button, 1);
    handle_confirm_modal(&mut app, Key::Esc);
    assert_eq!(app.mode, Mode::Selecting);
    app.mode = Mode::ConfirmModal;
    app.modal_button = 0;
    assert!(matches!(handle_confirm_modal(&mut app, Key::Enter), UiEffect::Nothing));
    assert_eq!(app.mode, Mode::Selecting);
}

#[test]
fn confirming_a_sync_dispatches_the_batch() {
    let mut app = app2();
    app.selected = vec![true, true];
    app.modal_action = ModalAction::Sync;
    match execute_modal_action(&mut app) {
        UiEffect::StartBatch { jobs, dry_run } => {
            assert_eq!(jobs.len(), 2);
            assert_eq!(jobs[0].index, 0);
            assert_eq!(jobs[1].index, 1);
            assert!(!dry_run);
        },
        other => panic!("expected a batch effect, got {other:?}"),
    }
    assert_eq!(app.mode, Mode::Syncing);
    assert!(app.statuses.iter().all(|s| matches!(s, SyncStatus::Pending)));
}

#[test]
fn confirming_single_operations_presets_the_row() {
    let mut app = app2();
    app.modal_action = ModalAction::Clone;
    match execute_modal_action(&mut app) {
        UiEffect::StartClone { job, .. } => assert_eq!(job.index, 0),
        other => panic!("expected a clone effect, got {other:?}"),
    }
    assert!(matches!(app.statuses[0], SyncStatus::Cloning));
    assert!(app.selected[0]);

    let mut app = app2();
    app.modal_action = ModalAction::Archive;
    match execute_modal_action(&mut app) {
        UiEffect::StartArchive { job, .. } => assert_eq!(job.index, 0),
        other => panic!("expected an archive effect, got {other:?}"),
    }
    assert!(matches!(app.statuses[0], SyncStatus::Archiving));

    let mut app = app2();
    app.modal_action = ModalAction::Delete;
    match execute_modal_action(&mut app) {
        UiEffect::StartDelete { job, .. } => assert_eq!(job.index, 0),
        other => panic!("expected a delete effect, got {other:?}"),
    }
    assert!(matches!(app.statuses[0], SyncStatus::Deleting));
}

#[test]
fn error_popup_runs_the_remediation_command() {
    let mut app = app2();
    app.error_details = Some(ErrorDetails {
        title: "Missing GitHub Scope".to_string(),
        message: "m".to_string(),
        action: Some(ErrorAction {
            label: "Fix".to_string(),
            command: "gh auth refresh".to_string(),
        }),
    });
    app.mode = Mode::ErrorPopup;
    app.modal_button = 0;
    match handle_error_popup(&mut app, Key::Enter, 0) {
        UiEffect::RunCommand { command } => assert_eq!(command, "gh auth refresh"),
        other => panic!("expected a command effect, got {other:?}"),
    }
    assert!(app.error_details.is_none());
}

#[test]
fn error_popup_dismisses() {
    let mut app = app2();
    app.error_details = Some(ErrorDetails {
        title: "t".to_string(),
        message: "m".to_string(),
        action: None,
    });
    app.mode = Mode::ErrorPopup;
    assert!(matches!(handle_error_popup(&mut app, Key::Esc, 0), UiEffect::Nothing));
    assert!(app.error_details.is_none());
    assert_eq!(app.mode, Mode::Selecting);
}
