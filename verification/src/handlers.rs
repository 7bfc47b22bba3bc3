//! Key handling as pure transitions: each handler takes the application
//! state and one key, mutates the state through its verified methods, and
//! returns the one outside effect the shell must perform — quit, open
//! something, run a remediation command, or dispatch an operation. The shell
//! performs the effect; it decides nothing.

use vstd::prelude::*;
use vstd::string::*;
use crate::app::{jobs_of, App};
use crate::types::{CacheStatus, ModalAction, Mode, StatusV, SyncJob, SyncStatus};

verus! {

/// The key events the handlers read, independent of any terminal library.
#[derive(Debug, Clone, Copy, PartialEq, Eq, Structural)]
pub enum Key {
    Char(char),
    Up,
    Down,
    Left,
    Right,
    Enter,
    Esc,
    Tab,
    Backspace,
}

/// What the unverified shell must do after a handler returns.
#[derive(Debug)]
pub enum UiEffect {
    /// Nothing to do outside.
    Nothing,
    /// Leave the event loop.
    Quit,
    /// Open the repository page in a browser.
    OpenBrowser { owner: String, name: String },
    /// Open the local clone in the editor.
    OpenEditor { path: String },
    /// Start the background list refresh worker.
    StartRefresh,
    /// Start the sequential batch-sync worker over these jobs.
    StartBatch { jobs: Vec<SyncJob>, dry_run: bool },
    /// Start an independent clone worker for this job.
    StartClone { job: SyncJob, dry_run: bool },
    /// Start an independent archive worker for this job.
    StartArchive { job: SyncJob, dry_run: bool },
    /// Start an independent delete worker for this job.
    StartDelete { job: SyncJob, dry_run: bool },
    /// Run a remediation command.
    RunCommand { command: String },
}

/// What confirming the pending modal action does: a sync marks every
/// selected row pending, enters the syncing mode and dispatches the batch;
/// clone, archive and delete preset the row under the cursor, return to
/// selection and dispatch that one job (a clone also selects the row).
/// With no row under the cursor, a single operation does nothing.
pub open spec fn modal_confirmed(pre: App, post: App, r: UiEffect) -> bool {
    &&& (pre.modal_action == ModalAction::Sync ==> {
        &&& post == (App {
            statuses: post.statuses,
            mode: Mode::Syncing,
            modal_button: post.modal_button,
            ..pre
        })
        &&& post.statuses@.len() == pre.statuses@.len()
        &&& (forall|k: int| 0 <= k < pre.statuses@.len()
            ==> (#[trigger] post.statuses@[k])@ == (if pre.selected@[k] {
                StatusV::Pending
            } else {
                pre.statuses@[k]@
            }))
        &&& r matches UiEffect::StartBatch { jobs, dry_run }
            && jobs@ == jobs_of(pre.forks@, pre.selected@, pre.forks@.len() as int)
            && dry_run == pre.dry_run
    })
    &&& (pre.modal_action == ModalAction::Clone ==> match pre.current_index_spec() {
        Some(j) => {
            &&& post == (App {
                statuses: post.statuses,
                selected: post.selected,
                mode: Mode::Selecting,
                modal_button: post.modal_button,
                ..pre
            })
            &&& post.statuses@ == pre.statuses@.update(j, SyncStatus::Cloning)
            &&& post.selected@ == pre.selected@.update(j, true)
            &&& r matches UiEffect::StartClone { job, dry_run }
                && job@.index == j && job.fork == pre.forks@[j] && dry_run == pre.dry_run
        },
        None => post == (App {
            mode: Mode::Selecting,
            modal_button: post.modal_button,
            ..pre
        }) && r is Nothing,
    })
    &&& (pre.modal_action == ModalAction::Archive ==> match pre.current_index_spec() {
        Some(j) => {
            &&& post == (App {
                statuses: post.statuses,
                mode: Mode::Selecting,
                modal_button: post.modal_button,
                ..pre
            })
            &&& post.statuses@ == pre.statuses@.update(j, SyncStatus::Archiving)
            &&& r matches UiEffect::StartArchive { job, dry_run }
                && job@.index == j && job.fork == pre.forks@[j] && dry_run == pre.dry_run
        },
        None => post == (App {
            mode: Mode::Selecting,
            modal_button: post.modal_button,
            ..pre
        }) && r is Nothing,
    })
    &&& (pre.modal_action == ModalAction::Delete ==> match pre.current_index_spec() {
        Some(j) => {
            &&& post == (App {
                statuses: post.statuses,
                mode: Mode::Selecting,
                modal_button: post.modal_button,
                ..pre
            })
            &&& post.statuses@ == pre.statuses@.update(j, SyncStatus::Deleting)
            &&& r matches UiEffect::StartDelete { job, dry_run }
                && job@.index == j && job.fork == pre.forks@[j] && dry_run == pre.dry_run
        },
        None => post == (App {
            mode: Mode::Selecting,
            modal_button: post.modal_button,
            ..pre
        }) && r is Nothing,
    })
}

/// Confirms the pending modal action, exactly as `modal_confirmed` says.
pub fn execute_modal_action(app: &mut App) -> (r: UiEffect)
    requires
        old(app).wf(),
    ensures
        final(app).wf(),
        final(app).modal_button == old(app).modal_button,
        modal_confirmed(*old(app), *final(app), r),
{
    match app.modal_action {
        ModalAction::Sync => {
            app.mark_selected_as_pending();
            app.mode = Mode::Syncing;
            let jobs = app.forks_to_sync();
            UiEffect::StartBatch { jobs, dry_run: app.dry_run }
        },
        ModalAction::Clone => {
            let r = match app.current_fork_index() {
                Some(idx) => {
                    let fork = (&app.forks[idx]).clone();
                    app.statuses[idx] = SyncStatus::Cloning;
                    app.selected[idx] = true;
                    UiEffect::StartClone {
                        job: SyncJob { index: idx, fork },
                        dry_run: app.dry_run,
                    }
                },
                None => UiEffect::Nothing,
            };
            app.mode = Mode::Selecting;
            r
        },
        ModalAction::Archive => {
            let r = match app.current_fork_index() {
                Some(idx) => {
                    let fork = (&app.forks[idx]).clone();
                    app.statuses[idx] = SyncStatus::Archiving;
                    UiEffect::StartArchive {
                        job: SyncJob { index: idx, fork },
                        dry_run: app.dry_run,
                    }
                },
                None => UiEffect::Nothing,
            };
            app.mode = Mode::Selecting;
            r
        },
        ModalAction::Delete => {
            let r = match app.current_fork_index() {
                Some(idx) => {
                    let fork = (&app.forks[idx]).clone();
                    app.statuses[idx] = SyncStatus::Deleting;
                    UiEffect::StartDelete {
                        job: SyncJob { index: idx, fork },
                        dry_run: app.dry_run,
                    }
                },
                None => UiEffect::Nothing,
            };
            app.mode = Mode::Selecting;
            r
        },
    }
}

/// Handles one key in the confirmation dialog: left/right and tab move the
/// button, enter confirms the focused button, `y` confirms outright, and
/// `n` or escape cancels back to selection.
pub fn handle_confirm_modal(app: &mut App, key: Key) -> (r: UiEffect)
    requires
        old(app).wf(),
    ensures
        final(app).wf(),
        key == Key::Left || key == Key::Char('h') ==> final(app).modal_button == 0,
        key == Key::Right || key == Key::Char('l') ==> final(app).modal_button == 1,
        key == Key::Tab ==> final(app).modal_button == (if old(app).modal_button == 0 {
            1int
        } else {
            0int
        }),
        key == Key::Char('n') || key == Key::Esc ==> final(app).mode == Mode::Selecting
            && r is Nothing,
        key == Key::Enter && old(app).modal_button != 1 ==> final(app).mode == Mode::Selecting
            && r is Nothing,
        key == Key::Enter && old(app).modal_button == 1
            ==> modal_confirmed(*old(app), *final(app), r),
        key == Key::Char('y') ==> final(app).modal_button == 1
            && modal_confirmed(*old(app), *final(app), r),
{
    match key {
        Key::Left | Key::Char('h') => {
            app.modal_button = 0;
            UiEffect::Nothing
        },
        Key::Right | Key::Char('l') => {
            app.modal_button = 1;
            UiEffect::Nothing
        },
        Key::Tab => {
            app.modal_button = if app.modal_button == 0 {
                1
            } else {
                0
            };
            UiEffect::Nothing
        },
        Key::Enter => {
            if app.modal_button == 1 {
                execute_modal_action(app)
            } else {
                app.mode = Mode::Selecting;
                UiEffect::Nothing
            }
        },
        Key::Char('y') => {
            app.modal_button = 1;
            execute_modal_action(app)
        },
        Key::Char('n') | Key::Esc => {
            app.mode = Mode::Selecting;
            UiEffect::Nothing
        },
        _ => UiEffect::Nothing,
    }
}

/// Handles one key in search mode: typing edits the query and refilters,
/// escape clears the filter, enter keeps it, arrows move the cursor.
pub fn handle_search_mode(app: &mut App, key: Key)
    requires
        old(app).wf(),
    ensures
        final(app).wf(),
        key == Key::Esc ==> final(app).mode == Mode::Selecting
            && final(app).search_query@ == Seq::<char>::empty() && final(app).search_ok(),
        key == Key::Enter ==> final(app).mode == Mode::Selecting
            && final(app).search_query == old(app).search_query,
        key matches Key::Char(c) ==> final(app).search_query@ == old(app).search_query@.push(c)
            && final(app).search_ok(),
        key == Key::Backspace ==> final(app).search_query@ == (
            if old(app).search_query@.len() > 0 {
                old(app).search_query@.drop_last()
            } else {
                old(app).search_query@
            }) && final(app).search_ok(),
{
    match key {
        Key::Esc => {
            app.search_query = String::new();
            app.update_search();
            app.mode = Mode::Selecting;
        },
        Key::Enter => {
            app.mode = Mode::Selecting;
        },
        Key::Backspace => {
            app.search_query.pop();
            app.update_search();
        },
        Key::Char(c) => {
            app.search_query.push(c);
            app.update_search();
        },
        Key::Down => {
            app.next();
        },
        Key::Up => {
            app.previous();
        },
        _ => {},
    }
}

/// Whether the open error popup carries a remediation command.
pub open spec fn has_action(app: App) -> bool {
    match app.error_details {
        Some(d) => d.action is Some,
        None => false,
    }
}

/// The remediation command of the open error popup.
pub open spec fn action_command(app: App) -> Seq<char> {
    match app.error_details {
        Some(d) => match d.action {
            Some(a) => a.command@,
            None => Seq::empty(),
        },
        None => Seq::empty(),
    }
}

/// Handles one key in the error popup: escape, `q` or `n` dismisses it;
/// left/right and tab move between the action and dismiss buttons; enter or
/// `y` on the action button hands its command back as an effect.
pub fn handle_error_popup(app: &mut App, key: Key, now_ms: u64) -> (r: UiEffect)
    requires
        old(app).wf(),
    ensures
        final(app).wf(),
        key == Key::Esc || key == Key::Char('q') || key == Key::Char('n') ==> {
            &&& final(app).error_details is None
            &&& final(app).mode == Mode::Selecting
            &&& r is Nothing
        },
        (key == Key::Enter || key == Key::Char('y')) && old(app).modal_button == 0
            && has_action(*old(app)) ==> {
            &&& r matches UiEffect::RunCommand { command }
                && command@ == action_command(*old(app))
            &&& final(app).error_details is None
        },
        (key == Key::Enter || key == Key::Char('y')) && !(old(app).modal_button == 0
            && has_action(*old(app))) ==> {
            &&& final(app).error_details is None
            &&& final(app).mode == Mode::Selecting
            &&& r is Nothing
        },
{
    match key {
        Key::Esc | Key::Char('q') | Key::Char('n') => {
            app.dismiss_error_popup();
            UiEffect::Nothing
        },
        Key::Left | Key::Char('h') => {
            app.modal_button = 0;
            UiEffect::Nothing
        },
        Key::Right | Key::Char('l') => {
            app.modal_button = 1;
            UiEffect::Nothing
        },
        Key::Tab => {
            app.modal_button = if app.modal_button == 0 {
                1
            } else {
                0
            };
            UiEffect::Nothing
        },
        Key::Enter | Key::Char('y') => {
            let mut command: Option<String> = None;
            if app.modal_button == 0 {
                match &app.error_details {
                    Some(d) => {
                        match &d.action {
                            Some(a) => {
                                command = Some(a.command.clone());
                            },
                            None => {},
                        }
                    },
                    None => {},
                }
            }
            app.dismiss_error_popup();
            match command {
                Some(c) => {
                    app.show_message("Running fix command...", now_ms);
                    UiEffect::RunCommand { command: c }
                },
                None => UiEffect::Nothing,
            }
        },
        _ => UiEffect::Nothing,
    }
}

/// Handles one key in row selection: navigation, selection, starting the
/// confirmation dialog for a sync, clone, archive or delete, the search and
/// stats overlays, opening the repository or the local clone, and the
/// background refresh.
pub fn handle_selecting_mode(app: &mut App, key: Key, now_ms: u64) -> (r: UiEffect)
    requires
        old(app).wf(),
    ensures
        final(app).wf(),
        key == Key::Char('q') || key == Key::Esc ==> r is Quit
            && *final(app) == *old(app),
        key == Key::Down || key == Key::Char('j') ==> r is Nothing
            && *final(app) == (App { cursor: old(app).cursor_next(), ..*old(app) }),
        key == Key::Up || key == Key::Char('k') ==> r is Nothing
            && *final(app) == (App { cursor: old(app).cursor_prev(), ..*old(app) }),
        key == Key::Char(' ') || key == Key::Tab ==> r is Nothing
            && App::selection_toggled(*old(app), *final(app)),
        key == Key::Char('a') ==> r is Nothing
            && App::selection_all_toggled(*old(app), *final(app)),
        key == Key::Enter && (count_true_all(old(app).selected@) > 0
            || old(app).current_index_spec() is Some) ==> {
            &&& r is Nothing
            &&& final(app).mode == Mode::ConfirmModal
            &&& final(app).modal_action == ModalAction::Sync
            &&& (count_true_all(old(app).selected@) > 0
                ==> final(app).selected == old(app).selected)
            &&& (count_true_all(old(app).selected@) == 0 ==> (
                old(app).current_index_spec() matches Some(j)
                    ==> final(app).selected@ == old(app).selected@.update(j, true)))
        },
        key == Key::Char('R') ==> {
            &&& r is StartRefresh
            &&& final(app).cache_status == (CacheStatus::Stale { refreshing: true })
            &&& final(app).status_message matches Some(m)
                && m.0@ == "Refreshing from GitHub..."@ && m.1 == now_ms
        },
        key == Key::Char('d') ==> r is Nothing && final(app).mode == Mode::StatsOverlay
            && final(app).stats_cache is Some,
        key == Key::Char('/') ==> r is Nothing && final(app).mode == Mode::Search
            && final(app).search_query@ == Seq::<char>::empty(),
        key == Key::Char('c') ==> r is Nothing && (match old(app).current_index_spec() {
            Some(j) => if old(app).forks@[j].is_cloned {
                &&& final(app).status_message matches Some(m)
                    && m.0@ == "Already cloned"@ && m.1 == now_ms
                &&& *final(app) == (App {
                    status_message: final(app).status_message,
                    ..*old(app)
                })
            } else {
                *final(app) == (App {
                    mode: Mode::ConfirmModal,
                    modal_action: ModalAction::Clone,
                    ..*old(app)
                })
            },
            None => *final(app) == *old(app),
        }),
        key == Key::Char('o') ==> (match old(app).current_index_spec() {
            Some(j) => {
                &&& r matches UiEffect::OpenBrowser { owner, name }
                    && owner@ == old(app).forks@[j].owner@
                    && name@ == old(app).forks@[j].name@
                &&& final(app).status_message matches Some(m)
                    && m.0@ == "Opening in browser..."@ && m.1 == now_ms
                &&& *final(app) == (App {
                    status_message: final(app).status_message,
                    ..*old(app)
                })
            },
            None => r is Nothing && *final(app) == *old(app),
        }),
        key == Key::Char('e') ==> (match old(app).current_index_spec() {
            Some(j) => if old(app).forks@[j].is_cloned {
                &&& r matches UiEffect::OpenEditor { path }
                    && path@ == old(app).forks@[j].local_path@
                &&& *final(app) == *old(app)
            } else {
                &&& r is Nothing
                &&& final(app).status_message matches Some(m)
                    && m.0@ == "Not cloned yet"@ && m.1 == now_ms
                &&& *final(app) == (App {
                    status_message: final(app).status_message,
                    ..*old(app)
                })
            },
            None => r is Nothing && *final(app) == *old(app),
        }),
        key == Key::Char('x') ==> r is Nothing && (if old(app).current_index_spec() is Some {
            *final(app) == (App {
                mode: Mode::ConfirmModal,
                modal_action: ModalAction::Archive,
                ..*old(app)
            })
        } else {
            *final(app) == *old(app)
        }),
        key == Key::Char('D') ==> r is Nothing && (if old(app).current_index_spec() is Some {
            *final(app) == (App {
                mode: Mode::ConfirmModal,
                modal_action: ModalAction::Delete,
                ..*old(app)
            })
        } else {
            *final(app) == *old(app)
        }),
{
    match key {
        Key::Char('q') | Key::Esc => UiEffect::Quit,
        Key::Down | Key::Char('j') => {
            app.next();
            UiEffect::Nothing
        },
        Key::Up | Key::Char('k') => {
            app.previous();
            UiEffect::Nothing
        },
        Key::Char(' ') | Key::Tab => {
            app.toggle_selection();
            UiEffect::Nothing
        },
        Key::Char('a') => {
            app.select_all();
            UiEffect::Nothing
        },
        Key::Enter => {
            if app.selected_count() > 0 {
                app.modal_action = ModalAction::Sync;
                app.mode = Mode::ConfirmModal;
            } else {
                match app.current_fork_index() {
                    Some(idx) => {
                        app.selected[idx] = true;
                        app.modal_action = ModalAction::Sync;
                        app.mode = Mode::ConfirmModal;
                    },
                    None => {},
                }
            }
            UiEffect::Nothing
        },
        Key::Char('/') => {
            app.search_query = String::new();
            app.mode = Mode::Search;
            UiEffect::Nothing
        },
        Key::Char('d') => {
            app.compute_stats();
            app.mode = Mode::StatsOverlay;
            UiEffect::Nothing
        },
        Key::Char('c') => {
            match app.current_fork_index() {
                Some(idx) => {
                    if app.forks[idx].is_cloned {
                        app.show_message("Already cloned", now_ms);
                    } else {
                        app.modal_action = ModalAction::Clone;
                        app.mode = Mode::ConfirmModal;
                    }
                },
                None => {},
            }
            UiEffect::Nothing
        },
        Key::Char('o') => {
            match app.current_fork_index() {
                Some(idx) => {
                    let owner = app.forks[idx].owner.clone();
                    let name = app.forks[idx].name.clone();
                    app.show_message("Opening in browser...", now_ms);
                    UiEffect::OpenBrowser { owner, name }
                },
                None => UiEffect::Nothing,
            }
        },
        Key::Char('e') => {
            match app.current_fork_index() {
                Some(idx) => {
                    if app.forks[idx].is_cloned {
                        let path = app.forks[idx].local_path.clone();
                        UiEffect::OpenEditor { path }
                    } else {
                        app.show_message("Not cloned yet", now_ms);
                        UiEffect::Nothing
                    }
                },
                None => UiEffect::Nothing,
            }
        },
        Key::Char('x') => {
            match app.current_fork_index() {
                Some(_) => {
                    app.modal_action = ModalAction::Archive;
                    app.mode = Mode::ConfirmModal;
                },
                None => {},
            }
            UiEffect::Nothing
        },
        Key::Char('D') => {
            match app.current_fork_index() {
                Some(_) => {
                    app.modal_action = ModalAction::Delete;
                    app.mode = Mode::ConfirmModal;
                },
                None => {},
            }
            UiEffect::Nothing
        },
        Key::Char('R') => {
            app.cache_status = CacheStatus::Stale { refreshing: true };
            app.show_message("Refreshing from GitHub...", now_ms);
            UiEffect::StartRefresh
        },
        _ => UiEffect::Nothing,
    }
}

/// How many rows of the whole mask are selected.
pub open spec fn count_true_all(s: Seq<bool>) -> int {
    crate::app::count_true(s, s.len() as int)
}

} // verus!
