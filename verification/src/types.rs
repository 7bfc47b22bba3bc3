//! The engine's data model: forks, per-job statuses, progress events, and the
//! small value types the interactive front end keeps. Every type with text
//! fields has a ghost view over `Seq<char>` so contracts can speak about the
//! exact characters carried.

use vstd::prelude::*;
use vstd::string::*;
use crate::strings::dec_str;
use crate::strings::u64_to_string;

verus! {

/// The spec-level image of an optional string.
pub open spec fn opt_view(o: Option<String>) -> Option<Seq<char>> {
    match o {
        Some(s) => Some(s@),
        None => None,
    }
}

/// Where a fork's local clone lives: `tool_home/owner/name`.
pub open spec fn local_path_of(home: Seq<char>, owner: Seq<char>, name: Seq<char>) -> Seq<char> {
    home + "/"@ + owner + "/"@ + name
}

/// Builds the local clone path for a fork under the tool home.
pub fn fork_local_path(tool_home: &str, owner: &str, name: &str) -> (r: String)
    ensures
        r@ == local_path_of(tool_home@, owner@, name@),
{
    let mut p = tool_home.to_owned();
    p.append("/");
    p.append(owner);
    p.append("/");
    p.append(name);
    p
}

/// One forked repository and its relationship to its parent.
#[derive(Debug)]
pub struct Fork {
    pub name: String,
    pub owner: String,
    pub parent_owner: String,
    pub parent_name: String,
    pub default_branch: String,
    pub local_path: String,
    pub is_cloned: bool,
    pub description: Option<String>,
    pub primary_language: Option<String>,
    pub created_at: Option<i64>,
    pub updated_at: Option<i64>,
}

/// Ghost image of a `Fork`.
pub ghost struct ForkV {
    pub name: Seq<char>,
    pub owner: Seq<char>,
    pub parent_owner: Seq<char>,
    pub parent_name: Seq<char>,
    pub default_branch: Seq<char>,
    pub local_path: Seq<char>,
    pub is_cloned: bool,
    pub description: Option<Seq<char>>,
    pub primary_language: Option<Seq<char>>,
    pub created_at: Option<i64>,
    pub updated_at: Option<i64>,
}

impl View for Fork {
    type V = ForkV;

    open spec fn view(&self) -> ForkV {
        ForkV {
            name: self.name@,
            owner: self.owner@,
            parent_owner: self.parent_owner@,
            parent_name: self.parent_name@,
            default_branch: self.default_branch@,
            local_path: self.local_path@,
            is_cloned: self.is_cloned,
            description: opt_view(self.description),
            primary_language: opt_view(self.primary_language),
            created_at: self.created_at,
            updated_at: self.updated_at,
        }
    }
}

fn clone_opt_string(o: &Option<String>) -> (r: Option<String>)
    ensures
        r == *o,
{
    match o {
        Some(s) => Some(s.clone()),
        None => None,
    }
}

impl Clone for Fork {
    fn clone(&self) -> (r: Self)
        ensures
            r == *self,
    {
        Fork {
            name: self.name.clone(),
            owner: self.owner.clone(),
            parent_owner: self.parent_owner.clone(),
            parent_name: self.parent_name.clone(),
            default_branch: self.default_branch.clone(),
            local_path: self.local_path.clone(),
            is_cloned: self.is_cloned,
            description: clone_opt_string(&self.description),
            primary_language: clone_opt_string(&self.primary_language),
            created_at: self.created_at,
            updated_at: self.updated_at,
        }
    }
}

/// The unit of work handed to a reconciliation run: a stable index into the
/// caller's fork list plus an immutable snapshot of the fork.
#[derive(Debug)]
pub struct SyncJob {
    pub index: usize,
    pub fork: Fork,
}

/// Ghost image of a `SyncJob`.
pub ghost struct JobV {
    pub index: int,
    pub fork: ForkV,
}

impl View for SyncJob {
    type V = JobV;

    open spec fn view(&self) -> JobV {
        JobV { index: self.index as int, fork: self.fork@ }
    }
}

impl Clone for SyncJob {
    fn clone(&self) -> (r: Self)
        ensures
            r == *self,
    {
        SyncJob { index: self.index, fork: self.fork.clone() }
    }
}

/// The per-fork state proposed through progress events. `Synced`, `Skipped`
/// and `Failed` are terminal for one operation attempt; `Synced` carries a
/// best-effort count of commits the fork was behind, when it was determined.
#[derive(Debug, Clone)]
pub enum SyncStatus {
    Pending,
    Checking,
    Cloning,
    Stashing,
    Fetching,
    Syncing,
    Restoring,
    Archiving,
    Deleting,
    Synced(Option<u32>),
    Skipped(String),
    Failed(String),
}

/// Ghost image of a `SyncStatus`.
pub ghost enum StatusV {
    Pending,
    Checking,
    Cloning,
    Stashing,
    Fetching,
    Syncing,
    Restoring,
    Archiving,
    Deleting,
    Synced(Option<u32>),
    Skipped(Seq<char>),
    Failed(Seq<char>),
}

impl View for SyncStatus {
    type V = StatusV;

    open spec fn view(&self) -> StatusV {
        match self {
            SyncStatus::Pending => StatusV::Pending,
            SyncStatus::Checking => StatusV::Checking,
            SyncStatus::Cloning => StatusV::Cloning,
            SyncStatus::Stashing => StatusV::Stashing,
            SyncStatus::Fetching => StatusV::Fetching,
            SyncStatus::Syncing => StatusV::Syncing,
            SyncStatus::Restoring => StatusV::Restoring,
            SyncStatus::Archiving => StatusV::Archiving,
            SyncStatus::Deleting => StatusV::Deleting,
            SyncStatus::Synced(n) => StatusV::Synced(*n),
            SyncStatus::Skipped(r) => StatusV::Skipped(r@),
            SyncStatus::Failed(r) => StatusV::Failed(r@),
        }
    }
}

impl StatusV {
    /// Whether this status ends an operation attempt.
    pub open spec fn is_terminal(self) -> bool {
        self is Synced || self is Skipped || self is Failed
    }
}

impl SyncStatus {
    /// The display text of a status: the state name, the commit count for a
    /// completed sync, or the carried reason.
    pub open spec fn display_spec(&self) -> Seq<char> {
        match self@ {
            StatusV::Pending => "Pending"@,
            StatusV::Checking => "Checking"@,
            StatusV::Cloning => "Cloning"@,
            StatusV::Stashing => "Stashing"@,
            StatusV::Fetching => "Fetching"@,
            StatusV::Syncing => "Syncing"@,
            StatusV::Restoring => "Restoring"@,
            StatusV::Archiving => "Archiving"@,
            StatusV::Deleting => "Deleting"@,
            StatusV::Synced(None) => "Synced"@,
            StatusV::Synced(Some(n)) => if n == 0 {
                "Up-to-date"@
            } else {
                "+"@ + dec_str(n as nat) + " commits"@
            },
            StatusV::Skipped(r) => r,
            StatusV::Failed(r) => r,
        }
    }

    /// Renders the status for a tabular display.
    pub fn display(&self) -> (r: String)
        ensures
            r@ == self.display_spec(),
    {
        match self {
            SyncStatus::Pending => "Pending".to_owned(),
            SyncStatus::Checking => "Checking".to_owned(),
            SyncStatus::Cloning => "Cloning".to_owned(),
            SyncStatus::Stashing => "Stashing".to_owned(),
            SyncStatus::Fetching => "Fetching".to_owned(),
            SyncStatus::Syncing => "Syncing".to_owned(),
            SyncStatus::Restoring => "Restoring".to_owned(),
            SyncStatus::Archiving => "Archiving".to_owned(),
            SyncStatus::Deleting => "Deleting".to_owned(),
            SyncStatus::Synced(None) => "Synced".to_owned(),
            SyncStatus::Synced(Some(n)) => {
                if *n == 0 {
                    "Up-to-date".to_owned()
                } else {
                    let mut s = "+".to_owned();
                    s.append(u64_to_string(*n as u64).as_str());
                    s.append(" commits");
                    s
                }
            },
            SyncStatus::Skipped(r) => r.clone(),
            SyncStatus::Failed(r) => r.clone(),
        }
    }
}

/// The relative age of a moment `created` seen from `now` (epoch seconds):
/// `today`, `yesterday`, then days, weeks (of seven days, up to four), months
/// (of thirty days) and years (of 365 days).
pub open spec fn age_label(created: int, now: int) -> Seq<char> {
    let days = if now <= created {
        0int
    } else {
        (now - created) / 86400
    };
    if days < 1 {
        "today"@
    } else if days == 1 {
        "yesterday"@
    } else if days < 7 {
        dec_str(days as nat) + " days ago"@
    } else if days / 7 < 4 {
        dec_str((days / 7) as nat) + " week"@ + (if days / 7 == 1 {
            Seq::<char>::empty()
        } else {
            "s"@
        }) + " ago"@
    } else if days < 365 {
        dec_str((days / 30) as nat) + " month"@ + (if days / 30 == 1 {
            Seq::<char>::empty()
        } else {
            "s"@
        }) + " ago"@
    } else {
        dec_str((days / 365) as nat) + " year"@ + (if days / 365 == 1 {
            Seq::<char>::empty()
        } else {
            "s"@
        }) + " ago"@
    }
}

/// Renders how long ago `created_secs` was, seen from `now_secs`.
pub fn relative_age_label(created_secs: i64, now_secs: i64) -> (r: String)
    ensures
        r@ == age_label(created_secs as int, now_secs as int),
{
    let days: u64 = if now_secs <= created_secs {
        0
    } else {
        (((now_secs as i128) - (created_secs as i128)) / 86400) as u64
    };
    if days < 1 {
        "today".to_owned()
    } else if days == 1 {
        "yesterday".to_owned()
    } else if days < 7 {
        let mut s = u64_to_string(days);
        s.append(" days ago");
        s
    } else if days / 7 < 4 {
        let weeks = days / 7;
        let mut s = u64_to_string(weeks);
        s.append(" week");
        if weeks != 1 {
            s.append("s");
        }
        s.append(" ago");
        s
    } else if days < 365 {
        let months = days / 30;
        let mut s = u64_to_string(months);
        s.append(" month");
        if months != 1 {
            s.append("s");
        }
        s.append(" ago");
        s
    } else {
        let years = days / 365;
        let mut s = u64_to_string(years);
        s.append(" year");
        if years != 1 {
            s.append("s");
        }
        s.append(" ago");
        s
    }
}

/// How current the persisted fork metadata is.
#[derive(Debug, Clone, Copy, PartialEq, Eq, Structural)]
pub enum CacheStatus {
    Fresh,
    Stale { refreshing: bool },
    Offline,
}

/// The interaction mode of the front end's event loop.
#[derive(Debug, Clone, Copy, PartialEq, Eq, Structural)]
pub enum Mode {
    Selecting,
    Search,
    StatsOverlay,
    ConfirmModal,
    ErrorPopup,
    Syncing,
    Done,
}

/// The operation a confirmation dialog would start.
#[derive(Debug, Clone, Copy, PartialEq, Eq, Structural)]
pub enum ModalAction {
    Sync,
    Clone,
    Archive,
    Delete,
}

/// Severity of a transient notification.
#[derive(Debug, Clone, Copy, PartialEq, Eq, Structural)]
pub enum ToastLevel {
    Info,
    Success,
    Warning,
    Error,
}

/// A transient notification with its creation time in milliseconds.
#[derive(Debug, Clone)]
pub struct Toast {
    pub message: String,
    pub level: ToastLevel,
    pub created_at_ms: u64,
}

impl Toast {
    /// An informational notification created at `now_ms`.
    pub fn info(message: String, now_ms: u64) -> (r: Self)
        ensures
            r.message@ == message@,
            r.level == ToastLevel::Info,
            r.created_at_ms == now_ms,
    {
        Toast { message, level: ToastLevel::Info, created_at_ms: now_ms }
    }

    /// A success notification created at `now_ms`.
    pub fn success(message: String, now_ms: u64) -> (r: Self)
        ensures
            r.message@ == message@,
            r.level == ToastLevel::Success,
            r.created_at_ms == now_ms,
    {
        Toast { message, level: ToastLevel::Success, created_at_ms: now_ms }
    }

    /// An error notification created at `now_ms`.
    pub fn error(message: String, now_ms: u64) -> (r: Self)
        ensures
            r.message@ == message@,
            r.level == ToastLevel::Error,
            r.created_at_ms == now_ms,
    {
        Toast { message, level: ToastLevel::Error, created_at_ms: now_ms }
    }
}

/// A suggested remediation: a human label and the command to run.
#[derive(Debug, Clone)]
pub struct ErrorAction {
    pub label: String,
    pub command: String,
}

/// A failure with an optional actionable fix.
#[derive(Debug, Clone)]
pub struct ErrorDetails {
    pub title: String,
    pub message: String,
    pub action: Option<ErrorAction>,
}

/// Ghost image of `ErrorDetails`.
pub ghost struct ErrorDetailsV {
    pub title: Seq<char>,
    pub message: Seq<char>,
    pub action: Option<(Seq<char>, Seq<char>)>,
}

impl View for ErrorDetails {
    type V = ErrorDetailsV;

    open spec fn view(&self) -> ErrorDetailsV {
        ErrorDetailsV {
            title: self.title@,
            message: self.message@,
            action: match self.action {
                Some(a) => Some((a.label@, a.command@)),
                None => None,
            },
        }
    }
}

/// Aggregate statistics over the fork list.
#[derive(Debug)]
pub struct ForkStats {
    pub by_language: Vec<(String, u64)>,
    pub total: usize,
    pub cloned: usize,
    pub uncloned: usize,
    pub synced: usize,
    pub pending: usize,
    pub failed: usize,
}

/// A progress event: a status transition for one job index, a structural
/// change to the fork set, a batch-level refresh result, or an actionable
/// error. Produced by workers, consumed exactly once by the event loop.
#[derive(Debug)]
pub enum SyncResult {
    StatusUpdate(usize, SyncStatus),
    ForkCloned(usize),
    ForkArchived(usize),
    ForkDeleted(usize),
    ForksRefreshed(Vec<Fork>),
    RefreshFailed(String),
    ActionableError(ErrorDetails),
}

/// Ghost image of a progress event.
pub ghost enum EventV {
    StatusUpdate(int, StatusV),
    ForkCloned(int),
    ForkArchived(int),
    ForkDeleted(int),
    ForksRefreshed(Seq<ForkV>),
    RefreshFailed(Seq<char>),
    ActionableError(ErrorDetailsV),
}

impl View for SyncResult {
    type V = EventV;

    open spec fn view(&self) -> EventV {
        match self {
            SyncResult::StatusUpdate(i, st) => EventV::StatusUpdate(*i as int, st@),
            SyncResult::ForkCloned(i) => EventV::ForkCloned(*i as int),
            SyncResult::ForkArchived(i) => EventV::ForkArchived(*i as int),
            SyncResult::ForkDeleted(i) => EventV::ForkDeleted(*i as int),
            SyncResult::ForksRefreshed(v) => EventV::ForksRefreshed(
                Seq::new(v@.len(), |i: int| v@[i]@),
            ),
            SyncResult::RefreshFailed(m) => EventV::RefreshFailed(m@),
            SyncResult::ActionableError(d) => EventV::ActionableError(d@),
        }
    }
}

/// The spec-level image of a list of progress events.
pub open spec fn events_view(evs: Seq<SyncResult>) -> Seq<EventV> {
    evs.map_values(|e: SyncResult| e@)
}

} // verus!
