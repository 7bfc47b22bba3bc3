//! The consumer-side application state: the fork list, the per-row statuses
//! and selection, the interaction mode, the search filter, and the rules for
//! applying progress events. This state is owned by the single event-loop
//! consumer; workers only ever propose changes through events.

use vstd::prelude::*;
use vstd::string::*;
use crate::types::{
    CacheStatus, ErrorDetails, Fork, ForkStats, ModalAction, Mode, StatusV, SyncJob, SyncResult,
    SyncStatus, Toast,
};

verus! {

/// How many trues a selection mask holds, over its first `n` entries.
pub open spec fn count_true(s: Seq<bool>, n: int) -> int
    decreases n,
{
    if n <= 0 {
        0
    } else {
        count_true(s, n - 1) + if s[n - 1] { 1int } else { 0int }
    }
}

/// How many of the first `n` selected rows hold this kind of terminal status.
pub open spec fn count_terminal(
    statuses: Seq<SyncStatus>,
    selected: Seq<bool>,
    n: int,
    which: StatusV,
) -> int
    decreases n,
{
    if n <= 0 {
        0
    } else {
        count_terminal(statuses, selected, n - 1, which) + if selected[n - 1] && matches_kind(
            statuses[n - 1]@,
            which,
        ) {
            1int
        } else {
            0int
        }
    }
}

/// Whether a status is of the same variant as `which` (payloads ignored).
pub open spec fn matches_kind(st: StatusV, which: StatusV) -> bool {
    match which {
        StatusV::Synced(_) => st is Synced,
        StatusV::Skipped(_) => st is Skipped,
        StatusV::Failed(_) => st is Failed,
        StatusV::Pending => st is Pending,
        _ => false,
    }
}

/// The text the search matches against: `parent_owner/name`.
pub open spec fn haystack_of(f: crate::types::ForkV) -> Seq<char> {
    f.parent_owner + "/"@ + f.name
}

/// The ranking the fuzzy matcher assigns `pattern` against `choice` under its
/// default configuration; `None` when the pattern does not match.
pub uninterp spec fn skim_score(choice: Seq<char>, pattern: Seq<char>) -> Option<i64>;

/// Relies on fuzzy_matcher's `SkimMatcherV2::fuzzy_match` with the default
/// configuration: the score is a function of the two strings alone.
#[verifier::external_body]
fn fuzzy_score(choice: &str, pattern: &str) -> (r: Option<i64>)
    ensures
        r == skim_score(choice@, pattern@),
{
    fuzzy_matcher::FuzzyMatcher::fuzzy_match(
        &fuzzy_matcher::skim::SkimMatcherV2::default(),
        choice,
        pattern,
    )
}

/// A fork's search score for this query.
pub open spec fn match_score(f: crate::types::ForkV, q: Seq<char>) -> Option<i64> {
    skim_score(haystack_of(f), q)
}

/// The matching rows of the first `n` forks, in index order, with their
/// scores.
pub open spec fn scored(forks: Seq<Fork>, q: Seq<char>, n: int) -> Seq<(usize, i64)>
    decreases n,
{
    if n <= 0 {
        Seq::empty()
    } else {
        let p = scored(forks, q, n - 1);
        match match_score(forks[n - 1]@, q) {
            Some(s) => p.push(((n - 1) as usize, s)),
            None => p,
        }
    }
}

/// The spinner glyph shown at this tick.
pub open spec fn spinner_frame(i: int) -> Seq<char> {
    let k = i % 10;
    if k == 0 { "|"@ }
    else if k == 1 { "/"@ }
    else if k == 2 { "-"@ }
    else if k == 3 { "\\"@ }
    else if k == 4 { "|"@ }
    else if k == 5 { "/"@ }
    else if k == 6 { "-"@ }
    else if k == 7 { "\\"@ }
    else if k == 8 { "|"@ }
    else { "/"@ }
}

/// The interactive application state, owned by the event-loop consumer.
pub struct App {
    pub forks: Vec<Fork>,
    pub statuses: Vec<SyncStatus>,
    pub cursor: Option<usize>,
    pub selected: Vec<bool>,
    pub mode: Mode,
    pub dry_run: bool,
    pub tool_home: String,
    pub spinner_tick: usize,
    pub last_tick_ms: u64,
    pub modal_button: usize,
    pub modal_action: ModalAction,
    pub search_query: String,
    pub search_results: Vec<usize>,
    pub stats_cache: Option<ForkStats>,
    pub status_message: Option<(String, u64)>,
    pub cache_status: CacheStatus,
    pub error_details: Option<ErrorDetails>,
    pub toasts: Vec<Toast>,
}

impl App {
    /// The state's structural invariant: the three row tables run in step,
    /// the filter only names real rows, and the cursor points into the
    /// filtered list.
    pub open spec fn wf(self) -> bool {
        &&& self.statuses@.len() == self.forks@.len()
        &&& self.selected@.len() == self.forks@.len()
        &&& forall|j: int| 0 <= j < self.search_results@.len()
            ==> (#[trigger] self.search_results@[j]) < self.forks@.len()
        &&& (self.cursor matches Some(i) ==> i < self.search_results@.len())
    }

    /// The fork-list index under the cursor, through the filtered list.
    pub open spec fn current_index_spec(self) -> Option<int> {
        match self.cursor {
            Some(i) => if i < self.search_results@.len() {
                Some(self.search_results@[i as int] as int)
            } else {
                None
            },
            None => None,
        }
    }

    /// Where the cursor lands moving one row down: wrapping over the filtered
    /// list, unchanged when the filter is empty.
    pub open spec fn cursor_next(self) -> Option<usize> {
        if self.search_results@.len() == 0 {
            self.cursor
        } else {
            match self.cursor {
                Some(i) => Some((((i + 1) % (self.search_results@.len() as int))) as usize),
                None => Some(0usize),
            }
        }
    }

    /// Where the cursor lands moving one row up: wrapping over the filtered
    /// list, unchanged when the filter is empty.
    pub open spec fn cursor_prev(self) -> Option<usize> {
        if self.search_results@.len() == 0 {
            self.cursor
        } else {
            match self.cursor {
                Some(i) => Some(
                    (if i == 0 {
                        (self.search_results@.len() - 1) as usize
                    } else {
                        (i - 1) as usize
                    }),
                ),
                None => Some(0usize),
            }
        }
    }

    /// `post` is `pre` with the selection of the row under the cursor
    /// flipped, and nothing else changed.
    pub open spec fn selection_toggled(pre: App, post: App) -> bool {
        &&& post == (App { selected: post.selected, ..pre })
        &&& post.selected@.len() == pre.selected@.len()
        &&& match pre.current_index_spec() {
            Some(j) => forall|k: int| 0 <= k < pre.selected@.len()
                ==> (#[trigger] post.selected@[k]) == (if k == j {
                    !pre.selected@[k]
                } else {
                    pre.selected@[k]
                }),
            None => post.selected == pre.selected,
        }
    }

    /// `post` is `pre` with every visible row selected — or every one cleared
    /// when all of them were already selected — and nothing else changed.
    pub open spec fn selection_all_toggled(pre: App, post: App) -> bool {
        &&& post == (App { selected: post.selected, ..pre })
        &&& post.selected@.len() == pre.selected@.len()
        &&& forall|k: int| 0 <= k < pre.selected@.len()
            ==> (#[trigger] post.selected@[k]) == (if pre.visible_contains(k) {
                !pre.all_visible_selected()
            } else {
                pre.selected@[k]
            })
    }

    /// A fresh state over these forks: all rows pending and unselected, the
    /// filter showing everything, the cursor on the first row when one
    /// exists.
    pub fn new(forks: Vec<Fork>, dry_run: bool, tool_home: String, cache_status: CacheStatus) -> (a:
        Self)
        ensures
            a.wf(),
            a.forks == forks,
            a.dry_run == dry_run,
            a.tool_home == tool_home,
            a.cache_status == cache_status,
            a.mode == Mode::Selecting,
            a.statuses@.len() == forks@.len(),
            forall|j: int| 0 <= j < forks@.len() ==> (#[trigger] a.statuses@[j])@ is Pending,
            forall|j: int| 0 <= j < forks@.len() ==> !(#[trigger] a.selected@[j]),
            a.search_results@.len() == forks@.len(),
            forall|j: int| 0 <= j < forks@.len() ==> (#[trigger] a.search_results@[j]) == j,
            a.cursor == (if forks@.len() > 0 { Some(0usize) } else { Option::<usize>::None }),
            a.modal_button == 1,
            a.modal_action == ModalAction::Sync,
            a.search_query@ == Seq::<char>::empty(),
            a.stats_cache is None,
            a.status_message is None,
            a.error_details is None,
    {
        let n = forks.len();
        let mut statuses: Vec<SyncStatus> = Vec::new();
        let mut selected: Vec<bool> = Vec::new();
        let mut search_results: Vec<usize> = Vec::new();
        let mut k: usize = 0;
        while k < n
            invariant
                0 <= k <= n,
                statuses@.len() == k as int,
                selected@.len() == k as int,
                search_results@.len() == k as int,
                forall|j: int| 0 <= j < k ==> (#[trigger] statuses@[j])@ is Pending,
                forall|j: int| 0 <= j < k ==> !(#[trigger] selected@[j]),
                forall|j: int| 0 <= j < k ==> (#[trigger] search_results@[j]) == j,
            decreases n - k,
        {
            statuses.push(SyncStatus::Pending);
            selected.push(false);
            search_results.push(k);
            k = k + 1;
        }
        let cursor = if n > 0 {
            Some(0usize)
        } else {
            None
        };
        App {
            forks,
            statuses,
            cursor,
            selected,
            mode: Mode::Selecting,
            dry_run,
            tool_home,
            spinner_tick: 0,
            last_tick_ms: 0,
            modal_button: 1,
            modal_action: ModalAction::Sync,
            search_query: String::new(),
            search_results,
            stats_cache: None,
            status_message: None,
            cache_status,
            error_details: None,
            toasts: Vec::new(),
        }
    }

    /// The filtered view: fork-list indices currently visible, in rank order.
    pub fn visible_forks(&self) -> (r: &Vec<usize>)
        ensures
            r == &self.search_results,
    {
        &self.search_results
    }

    /// The fork-list index of the row under the cursor.
    pub fn current_fork_index(&self) -> (r: Option<usize>)
        ensures
            r is Some <==> self.current_index_spec() is Some,
            r matches Some(k) ==> self.current_index_spec() == Some(k as int),
    {
        match self.cursor {
            Some(i) => {
                if i < self.search_results.len() {
                    Some(self.search_results[i])
                } else {
                    None
                }
            },
            None => None,
        }
    }

    /// The fork under the cursor.
    pub fn current_fork(&self) -> (r: Option<&Fork>)
        requires
            self.wf(),
        ensures
            r is Some <==> self.current_index_spec() is Some,
            r matches Some(f) ==> {
                &&& self.current_index_spec() matches Some(j)
                &&& 0 <= j < self.forks@.len()
                &&& *f == self.forks@[j]
            },
    {
        match self.current_fork_index() {
            Some(idx) => Some(&self.forks[idx]),
            None => None,
        }
    }

    /// Moves the cursor one row down, wrapping at the end of the filtered
    /// list. An empty filter leaves everything unchanged.
    pub fn next(&mut self)
        requires
            old(self).wf(),
        ensures
            final(self).wf(),
            *final(self) == (App { cursor: final(self).cursor, ..*old(self) }),
            final(self).cursor == old(self).cursor_next(),
    {
        let n = self.search_results.len();
        if n == 0 {
            return;
        }
        let i = match self.cursor {
            Some(i) => (i + 1) % n,
            None => 0,
        };
        self.cursor = Some(i);
    }

    /// Moves the cursor one row up, wrapping at the start of the filtered
    /// list. An empty filter leaves everything unchanged.
    pub fn previous(&mut self)
        requires
            old(self).wf(),
        ensures
            final(self).wf(),
            *final(self) == (App { cursor: final(self).cursor, ..*old(self) }),
            final(self).cursor == old(self).cursor_prev(),
    {
        let n = self.search_results.len();
        if n == 0 {
            return;
        }
        let i = match self.cursor {
            Some(i) => {
                if i == 0 {
                    n - 1
                } else {
                    i - 1
                }
            },
            None => 0,
        };
        self.cursor = Some(i);
    }

    /// Flips the selection of the row under the cursor.
    pub fn toggle_selection(&mut self)
        requires
            old(self).wf(),
        ensures
            final(self).wf(),
            App::selection_toggled(*old(self), *final(self)),
    {
        match self.current_fork_index() {
            Some(idx) => {
                let v = self.selected[idx];
                self.selected[idx] = !v;
            },
            None => {},
        }
    }

    /// How many rows are selected.
    pub fn selected_count(&self) -> (r: usize)
        ensures
            r == count_true(self.selected@, self.selected@.len() as int),
    {
        let n = self.selected.len();
        let mut c: usize = 0;
        let mut k: usize = 0;
        while k < n
            invariant
                0 <= k <= n == self.selected@.len(),
                c == count_true(self.selected@, k as int),
                c <= k,
            decreases n - k,
        {
            if self.selected[k] {
                c = c + 1;
            }
            k = k + 1;
        }
        c
    }

    /// Selects every visible row, or clears them all when every one is
    /// already selected.
    pub fn select_all(&mut self)
        requires
            old(self).wf(),
        ensures
            final(self).wf(),
            App::selection_all_toggled(*old(self), *final(self)),
    {
        let ghost pre = *self;
        let n = self.search_results.len();
        let mut all: bool = true;
        let mut k: usize = 0;
        while k < n
            invariant
                0 <= k <= n == self.search_results@.len(),
                *self == pre,
                pre.wf(),
                all == (forall|j: int| 0 <= j < k
                    ==> pre.selected@[#[trigger] pre.search_results@[j] as int]),
            decreases n - k,
        {
            let idx = self.search_results[k];
            if !self.selected[idx] {
                all = false;
            }
            k = k + 1;
        }
        proof {
            assert(all == pre.all_visible_selected());
        }
        let target = !all;
        let mut t: usize = 0;
        while t < n
            invariant
                0 <= t <= n == pre.search_results@.len(),
                pre.wf(),
                self.forks == pre.forks,
                self.statuses == pre.statuses,
                self.cursor == pre.cursor,
                self.mode == pre.mode,
                self.dry_run == pre.dry_run,
                self.tool_home == pre.tool_home,
                self.spinner_tick == pre.spinner_tick,
                self.last_tick_ms == pre.last_tick_ms,
                self.modal_button == pre.modal_button,
                self.modal_action == pre.modal_action,
                self.search_query == pre.search_query,
                self.search_results == pre.search_results,
                self.stats_cache == pre.stats_cache,
                self.status_message == pre.status_message,
                self.cache_status == pre.cache_status,
                self.error_details == pre.error_details,
                self.toasts == pre.toasts,
                self.selected@.len() == pre.selected@.len(),
                target == !pre.all_visible_selected(),
                forall|k2: int| 0 <= k2 < pre.selected@.len()
                    ==> (#[trigger] self.selected@[k2]) == (if (exists|j: int|
                        0 <= j < t && pre.search_results@[j] == k2) {
                        target
                    } else {
                        pre.selected@[k2]
                    }),
            decreases n - t,
        {
            let idx = self.search_results[t];
            self.selected[idx] = target;
            t = t + 1;
            proof {
                assert forall|k2: int| 0 <= k2 < pre.selected@.len()
                    implies (#[trigger] self.selected@[k2]) == (if (exists|j: int|
                        0 <= j < t && pre.search_results@[j] == k2) {
                        target
                    } else {
                        pre.selected@[k2]
                    }) by {
                    if k2 == idx as int {
                        assert(pre.search_results@[t - 1] == k2);
                    } else {
                        if exists|j: int| 0 <= j < t && pre.search_results@[j] == k2 {
                            let j = choose|j: int| 0 <= j < t && pre.search_results@[j] == k2;
                            assert(j < t - 1 || pre.search_results@[t - 1] == k2);
                        }
                    }
                }
            }
        }
        proof {
            assert forall|k2: int| 0 <= k2 < pre.selected@.len()
                implies (#[trigger] self.selected@[k2]) == (if pre.visible_contains(k2) {
                    !pre.all_visible_selected()
                } else {
                    pre.selected@[k2]
                }) by {
            }
        }
    }

    /// Whether the fork-list index `k` is in the filtered view.
    pub open spec fn visible_contains(self, k: int) -> bool {
        exists|j: int| 0 <= j < self.search_results@.len() && self.search_results@[j] == k
    }

    /// Whether every visible row is selected.
    pub open spec fn all_visible_selected(self) -> bool {
        forall|j: int| 0 <= j < self.search_results@.len()
            ==> self.selected@[#[trigger] self.search_results@[j] as int]
    }

    /// Advances the spinner when at least its frame interval has elapsed, and
    /// drops a status message older than three seconds.
    pub fn tick_spinner(&mut self, now_ms: u64)
        ensures
            final(self).spinner_tick == (if now_ms >= old(self).last_tick_ms
                && now_ms - old(self).last_tick_ms >= 80 {
                if old(self).spinner_tick >= 9 {
                    0usize
                } else {
                    (old(self).spinner_tick + 1) as usize
                }
            } else {
                old(self).spinner_tick
            }),
            final(self).last_tick_ms == (if now_ms >= old(self).last_tick_ms
                && now_ms - old(self).last_tick_ms >= 80 {
                now_ms
            } else {
                old(self).last_tick_ms
            }),
            final(self).status_message == (match old(self).status_message {
                Some(m) => if now_ms >= m.1 && now_ms - m.1 > 3000 {
                    Option::<(String, u64)>::None
                } else {
                    Some(m)
                },
                None => None,
            }),
            *final(self) == (App {
                spinner_tick: final(self).spinner_tick,
                last_tick_ms: final(self).last_tick_ms,
                status_message: final(self).status_message,
                ..*old(self)
            }),
    {
        if now_ms >= self.last_tick_ms && now_ms - self.last_tick_ms >= 80 {
            self.spinner_tick = if self.spinner_tick >= 9 {
                0
            } else {
                self.spinner_tick + 1
            };
            self.last_tick_ms = now_ms;
        }
        let clear = match &self.status_message {
            Some(m) => now_ms >= m.1 && now_ms - m.1 > 3000,
            None => false,
        };
        if clear {
            self.status_message = None;
        }
    }

    /// The spinner glyph for the current tick.
    pub fn spinner(&self) -> (r: &'static str)
        ensures
            r@ == spinner_frame(self.spinner_tick as int),
    {
        match self.spinner_tick % 10 {
            0 => "|",
            1 => "/",
            2 => "-",
            3 => "\\",
            4 => "|",
            5 => "/",
            6 => "-",
            7 => "\\",
            8 => "|",
            _ => "/",
        }
    }

    /// Resets every selected row to `Pending` before a batch starts.
    pub fn mark_selected_as_pending(&mut self)
        requires
            old(self).wf(),
        ensures
            final(self).wf(),
            *final(self) == (App { statuses: final(self).statuses, ..*old(self) }),
            final(self).statuses@.len() == old(self).statuses@.len(),
            forall|k: int| 0 <= k < old(self).statuses@.len()
                ==> (#[trigger] final(self).statuses@[k])@ == (if old(self).selected@[k] {
                    StatusV::Pending
                } else {
                    old(self).statuses@[k]@
                }),
    {
        let ghost pre = *self;
        let n = self.selected.len();
        let mut k: usize = 0;
        while k < n
            invariant
                0 <= k <= n == pre.selected@.len(),
                pre.wf(),
                self.forks == pre.forks,
                self.selected == pre.selected,
                self.cursor == pre.cursor,
                self.mode == pre.mode,
                self.dry_run == pre.dry_run,
                self.tool_home == pre.tool_home,
                self.spinner_tick == pre.spinner_tick,
                self.last_tick_ms == pre.last_tick_ms,
                self.modal_button == pre.modal_button,
                self.modal_action == pre.modal_action,
                self.search_query == pre.search_query,
                self.search_results == pre.search_results,
                self.stats_cache == pre.stats_cache,
                self.status_message == pre.status_message,
                self.cache_status == pre.cache_status,
                self.error_details == pre.error_details,
                self.toasts == pre.toasts,
                self.statuses@.len() == pre.statuses@.len(),
                forall|j: int| 0 <= j < pre.statuses@.len()
                    ==> (#[trigger] self.statuses@[j])@ == (if j < k && pre.selected@[j] {
                        StatusV::Pending
                    } else {
                        pre.statuses@[j]@
                    }),
            decreases n - k,
        {
            if self.selected[k] {
                self.statuses[k] = SyncStatus::Pending;
            }
            k = k + 1;
        }
    }

    /// Whether every selected row has reached a terminal status.
    pub fn is_all_done(&self) -> (r: bool)
        requires
            self.wf(),
        ensures
            r == forall|k: int| 0 <= k < self.statuses@.len() && self.selected@[k]
                ==> (#[trigger] self.statuses@[k])@.is_terminal(),
    {
        let n = self.statuses.len();
        let mut k: usize = 0;
        while k < n
            invariant
                0 <= k <= n == self.statuses@.len(),
                self.wf(),
                forall|j: int| 0 <= j < k && self.selected@[j]
                    ==> (#[trigger] self.statuses@[j])@.is_terminal(),
            decreases n - k,
        {
            if self.selected[k] {
                let done = match &self.statuses[k] {
                    SyncStatus::Synced(_) => true,
                    SyncStatus::Skipped(_) => true,
                    SyncStatus::Failed(_) => true,
                    _ => false,
                };
                if !done {
                    return false;
                }
            }
            k = k + 1;
        }
        true
    }

    /// Clears the selection of completed rows, resets every status to
    /// `Pending`, and re-arms the confirmation button.
    pub fn reset_for_next_round(&mut self)
        requires
            old(self).wf(),
        ensures
            final(self).wf(),
            *final(self) == (App {
                statuses: final(self).statuses,
                selected: final(self).selected,
                modal_button: 1,
                ..*old(self)
            }),
            final(self).statuses@.len() == old(self).statuses@.len(),
            final(self).selected@.len() == old(self).selected@.len(),
            forall|k: int| 0 <= k < old(self).statuses@.len()
                ==> (#[trigger] final(self).statuses@[k])@ is Pending,
            forall|k: int| 0 <= k < old(self).selected@.len()
                ==> (#[trigger] final(self).selected@[k]) == (if old(self).statuses@[k]@ is Synced {
                    false
                } else {
                    old(self).selected@[k]
                }),
    {
        let ghost pre = *self;
        let n = self.forks.len();
        let mut k: usize = 0;
        while k < n
            invariant
                0 <= k <= n == pre.forks@.len(),
                pre.wf(),
                self.forks == pre.forks,
                self.cursor == pre.cursor,
                self.mode == pre.mode,
                self.dry_run == pre.dry_run,
                self.tool_home == pre.tool_home,
                self.spinner_tick == pre.spinner_tick,
                self.last_tick_ms == pre.last_tick_ms,
                self.modal_button == pre.modal_button,
                self.modal_action == pre.modal_action,
                self.search_query == pre.search_query,
                self.search_results == pre.search_results,
                self.stats_cache == pre.stats_cache,
                self.status_message == pre.status_message,
                self.cache_status == pre.cache_status,
                self.error_details == pre.error_details,
                self.toasts == pre.toasts,
                self.statuses@.len() == pre.statuses@.len(),
                self.selected@.len() == pre.selected@.len(),
                forall|j: int| 0 <= j < pre.statuses@.len()
                    ==> (#[trigger] self.statuses@[j])@ == (if j < k {
                        StatusV::Pending
                    } else {
                        pre.statuses@[j]@
                    }),
                forall|j: int| 0 <= j < pre.selected@.len()
                    ==> (#[trigger] self.selected@[j]) == (if j < k
                        && pre.statuses@[j]@ is Synced {
                        false
                    } else {
                        pre.selected@[j]
                    }),
            decreases n - k,
        {
            let is_synced = match &self.statuses[k] {
                SyncStatus::Synced(_) => true,
                _ => false,
            };
            proof {
                assert(self.statuses@[k as int]@ == pre.statuses@[k as int]@);
            }
            if is_synced {
                self.selected[k] = false;
            }
            self.statuses[k] = SyncStatus::Pending;
            k = k + 1;
        }
        self.modal_button = 1;
    }

    /// Counts the selected rows that ended `Synced`, `Skipped` and `Failed`,
    /// in that order.
    pub fn summary(&self) -> (r: (usize, usize, usize))
        requires
            self.wf(),
        ensures
            r.0 == count_terminal(
                self.statuses@,
                self.selected@,
                self.statuses@.len() as int,
                StatusV::Synced(None),
            ),
            r.1 == count_terminal(
                self.statuses@,
                self.selected@,
                self.statuses@.len() as int,
                StatusV::Skipped(Seq::empty()),
            ),
            r.2 == count_terminal(
                self.statuses@,
                self.selected@,
                self.statuses@.len() as int,
                StatusV::Failed(Seq::empty()),
            ),
    {
        let n = self.statuses.len();
        let mut synced: usize = 0;
        let mut skipped: usize = 0;
        let mut failed: usize = 0;
        let mut k: usize = 0;
        while k < n
            invariant
                0 <= k <= n == self.statuses@.len(),
                self.wf(),
                synced == count_terminal(
                    self.statuses@,
                    self.selected@,
                    k as int,
                    StatusV::Synced(None),
                ),
                skipped == count_terminal(
                    self.statuses@,
                    self.selected@,
                    k as int,
                    StatusV::Skipped(Seq::empty()),
                ),
                failed == count_terminal(
                    self.statuses@,
                    self.selected@,
                    k as int,
                    StatusV::Failed(Seq::empty()),
                ),
                synced <= k,
                skipped <= k,
                failed <= k,
            decreases n - k,
        {
            if self.selected[k] {
                match &self.statuses[k] {
                    SyncStatus::Synced(_) => {
                        synced = synced + 1;
                    },
                    SyncStatus::Skipped(_) => {
                        skipped = skipped + 1;
                    },
                    SyncStatus::Failed(_) => {
                        failed = failed + 1;
                    },
                    _ => {},
                }
            }
            k = k + 1;
        }
        (synced, skipped, failed)
    }

    /// Records a transient status message with its creation time.
    pub fn show_message(&mut self, msg: &str, now_ms: u64)
        ensures
            final(self).status_message matches Some(m) && m.0@ == msg@ && m.1 == now_ms,
            *final(self) == (App {
                status_message: final(self).status_message,
                ..*old(self)
            }),
    {
        self.status_message = Some((msg.to_owned(), now_ms));
    }

    /// Closes the error popup and returns to row selection.
    pub fn dismiss_error_popup(&mut self)
        ensures
            final(self).error_details is None,
            final(self).mode == Mode::Selecting,
            *final(self) == (App {
                error_details: None,
                mode: Mode::Selecting,
                ..*old(self)
            }),
    {
        self.error_details = None;
        self.mode = Mode::Selecting;
    }

    /// The selected rows as jobs for a batch sync, in list order, each with a
    /// snapshot of its fork.
    pub fn forks_to_sync(&self) -> (r: Vec<SyncJob>)
        requires
            self.wf(),
        ensures
            r@ == jobs_of(self.forks@, self.selected@, self.forks@.len() as int),
    {
        let n = self.forks.len();
        let mut jobs: Vec<SyncJob> = Vec::new();
        let mut k: usize = 0;
        while k < n
            invariant
                0 <= k <= n == self.forks@.len(),
                self.wf(),
                jobs@ == jobs_of(self.forks@, self.selected@, k as int),
            decreases n - k,
        {
            if self.selected[k] {
                let fork = self.forks[k].clone();
                jobs.push(SyncJob { index: k, fork });
            }
            k = k + 1;
        }
        jobs
    }
}

/// Descending by score: no later entry scores higher than an earlier one.
pub open spec fn sorted_desc(v: Seq<(usize, i64)>) -> bool {
    forall|j: int, k: int| 0 <= j < k < v.len() ==> (#[trigger] v[k]).1 <= (#[trigger] v[j]).1
}

/// Every scored entry names a row below `n` and carries that row's score.
proof fn lemma_scored_elems(forks: Seq<Fork>, q: Seq<char>, n: int)
    requires
        n <= forks.len(),
        0 <= n <= usize::MAX,
    ensures
        forall|i: int| 0 <= i < scored(forks, q, n).len() ==> {
            &&& (#[trigger] scored(forks, q, n)[i]).0 < n
            &&& match_score(forks[scored(forks, q, n)[i].0 as int]@, q)
                == Some(scored(forks, q, n)[i].1)
        },
    decreases n,
{
    if n > 0 {
        lemma_scored_elems(forks, q, n - 1);
        let p = scored(forks, q, n - 1);
        let c = scored(forks, q, n);
        assert forall|i: int| 0 <= i < c.len() implies {
            &&& (#[trigger] c[i]).0 < n
            &&& match_score(forks[c[i].0 as int]@, q) == Some(c[i].1)
        } by {
            match match_score(forks[n - 1]@, q) {
                Some(sc) => {
                    assert(c == p.push((((n - 1) as usize), sc)));
                    if i < p.len() {
                        assert(c[i] == p[i]);
                    } else {
                        assert(c[i] == (((n - 1) as usize), sc));
                    }
                },
                None => {
                    assert(c == p);
                    assert(c[i] == p[i]);
                },
            }
        }
    }
}

/// The scored rows carry strictly increasing indices, so no two entries are
/// equal and no two entries name the same row.
proof fn lemma_scored_increasing(forks: Seq<Fork>, q: Seq<char>, n: int)
    requires
        0 <= n <= usize::MAX,
        n <= forks.len(),
    ensures
        forall|a: int, b: int| 0 <= a < b < scored(forks, q, n).len()
            ==> (#[trigger] scored(forks, q, n)[a]).0 < (#[trigger] scored(forks, q, n)[b]).0,
    decreases n,
{
    if n > 0 {
        lemma_scored_increasing(forks, q, n - 1);
        lemma_scored_elems(forks, q, n - 1);
        let p = scored(forks, q, n - 1);
        let c = scored(forks, q, n);
        assert forall|a: int, b: int| 0 <= a < b < c.len()
            implies (#[trigger] c[a]).0 < (#[trigger] c[b]).0 by {
            match match_score(forks[n - 1]@, q) {
                Some(sc) => {
                    assert(c == p.push((((n - 1) as usize), sc)));
                    assert(c[a] == p[a]);
                    if b < p.len() {
                        assert(c[b] == p[b]);
                    } else {
                        assert(c[b] == (((n - 1) as usize), sc));
                        assert(p[a].0 < n - 1);
                    }
                },
                None => {
                    assert(c == p);
                },
            }
        }
    }
}

/// Sorts the scored rows by descending score, keeping exactly the same
/// entries.
fn sort_by_score_desc(v: &mut Vec<(usize, i64)>)
    ensures
        final(v)@.to_multiset() == old(v)@.to_multiset(),
        final(v)@.len() == old(v)@.len(),
        sorted_desc(final(v)@),
{
    let n = v.len();
    let mut i: usize = 1;
    if n == 0 {
        return;
    }
    while i < n
        invariant
            1 <= i <= n == v@.len(),
            v@.to_multiset() == old(v)@.to_multiset(),
            forall|a: int, b: int| 0 <= a < b < i ==> (#[trigger] v@[b]).1 <= (#[trigger] v@[a]).1,
        decreases n - i,
    {
        let mut j: usize = i;
        while j > 0 && v[j - 1].1 < v[j].1
            invariant
                0 <= j <= i < n == v@.len(),
                v@.to_multiset() == old(v)@.to_multiset(),
                forall|a: int, b: int| 0 <= a < b <= i && b != j
                    ==> (#[trigger] v@[b]).1 <= (#[trigger] v@[a]).1,
                forall|a: int| j < a <= i ==> (#[trigger] v@[a]).1 <= v@[j as int].1,
            decreases j,
        {
            let ghost before = v@;
            let x = v[j - 1];
            let y = v[j];
            v[j - 1] = y;
            v[j] = x;
            proof {
                broadcast use vstd::seq_lib::to_multiset_update;
                broadcast use vstd::multiset::group_multiset_axioms;
                let mid = before.update(j - 1, y);
                assert(v@ == mid.update(j as int, x));
                assert(before[j - 1] == x);
                assert(mid.to_multiset() == before.to_multiset().remove(x).insert(y));
                assert(mid[j as int] == y);
                assert(v@.to_multiset() == mid.to_multiset().remove(y).insert(x));
                assert forall|e: (usize, i64)|
                    v@.to_multiset().count(e) == before.to_multiset().count(e) by {
                    broadcast use vstd::seq_lib::group_to_multiset_ensures;
                    assert(before.to_multiset().count(x) >= 1) by {
                        assert(before[j - 1] == x);
                        assert(before.contains(x));
                    }
                    assert(mid.to_multiset().count(y) >= 1) by {
                        assert(mid[j as int] == y);
                        assert(mid.contains(y));
                    }
                }
                assert(v@.to_multiset() =~= before.to_multiset());
            }
            j = j - 1;
        }
        i = i + 1;
    }
}

/// The identity filter over `n` rows.
pub open spec fn identity_results(n: int) -> Seq<usize> {
    Seq::new(n as nat, |i: int| i as usize)
}

impl App {
    /// What a recomputed filter guarantees: an empty query shows every row in
    /// order; otherwise the filter holds exactly as many rows as match the
    /// query, each visible row matches, and the rows come in order of
    /// non-increasing fuzzy score.
    pub open spec fn search_ok(self) -> bool {
        if self.search_query@.len() == 0 {
            self.search_results@ == identity_results(self.forks@.len() as int)
        } else {
            let sc = scored(self.forks@, self.search_query@, self.forks@.len() as int);
            &&& self.search_results@.len() == sc.len()
            &&& forall|j: int| 0 <= j < self.search_results@.len() ==> {
                &&& (#[trigger] self.search_results@[j]) < self.forks@.len()
                &&& match_score(self.forks@[self.search_results@[j] as int]@, self.search_query@)
                    is Some
            }
            &&& forall|j: int, k: int| 0 <= j < k < self.search_results@.len()
                ==> match_score(
                    self.forks@[(#[trigger] self.search_results@[k]) as int]@,
                    self.search_query@,
                )->0 <= match_score(
                    self.forks@[(#[trigger] self.search_results@[j]) as int]@,
                    self.search_query@,
                )->0
            &&& forall|j: int, k: int| 0 <= j < k < self.search_results@.len()
                ==> (#[trigger] self.search_results@[j])
                    != (#[trigger] self.search_results@[k])
        }
    }

    /// Recomputes the filtered view from the current query and puts the
    /// cursor on the first result.
    pub fn update_search(&mut self)
        requires
            old(self).statuses@.len() == old(self).forks@.len(),
            old(self).selected@.len() == old(self).forks@.len(),
        ensures
            final(self).wf(),
            final(self).search_ok(),
            *final(self) == (App {
                search_results: final(self).search_results,
                cursor: final(self).cursor,
                ..*old(self)
            }),
            final(self).cursor == (if final(self).search_results@.len() == 0 {
                Option::<usize>::None
            } else {
                Some(0usize)
            }),
    {
        let n = self.forks.len();
        if self.search_query.as_str().unicode_len() == 0 {
            let mut results: Vec<usize> = Vec::new();
            let mut k: usize = 0;
            while k < n
                invariant
                    0 <= k <= n,
                    results@.len() == k as int,
                    forall|j: int| 0 <= j < k ==> (#[trigger] results@[j]) == j,
                decreases n - k,
            {
                results.push(k);
                k = k + 1;
            }
            proof {
                assert(results@ =~= identity_results(n as int));
            }
            self.search_results = results;
        } else {
            let mut cands: Vec<(usize, i64)> = Vec::new();
            let mut k: usize = 0;
            while k < n
                invariant
                    0 <= k <= n == self.forks@.len(),
                    cands@ == scored(self.forks@, self.search_query@, k as int),
                decreases n - k,
            {
                let f = &self.forks[k];
                let mut hay = f.parent_owner.clone();
                hay.append("/");
                hay.append(f.name.as_str());
                let score = fuzzy_score(hay.as_str(), self.search_query.as_str());
                match score {
                    Some(sc) => {
                        cands.push((k, sc));
                    },
                    None => {},
                }
                k = k + 1;
            }
            let ghost orig = cands@;
            sort_by_score_desc(&mut cands);
            proof {
                broadcast use vstd::seq_lib::to_multiset_contains;
                lemma_scored_elems(self.forks@, self.search_query@, n as int);
                lemma_scored_increasing(self.forks@, self.search_query@, n as int);
                assert forall|i: int| 0 <= i < cands@.len() implies {
                    &&& (#[trigger] cands@[i]).0 < n
                    &&& match_score(self.forks@[cands@[i].0 as int]@, self.search_query@)
                        == Some(cands@[i].1)
                } by {
                    assert(cands@.to_multiset().contains(cands@[i]));
                    assert(orig.contains(cands@[i]));
                    let w = choose|w: int| 0 <= w < orig.len() && orig[w] == cands@[i];
                    assert(orig[w].0 < n);
                }
                assert(orig.no_duplicates()) by {
                    assert forall|a: int, b: int|
                        0 <= a < orig.len() && 0 <= b < orig.len() && a != b
                        implies orig[a] != orig[b] by {
                        if a < b {
                            assert(orig[a].0 < orig[b].0);
                        } else {
                            assert(orig[b].0 < orig[a].0);
                        }
                    }
                }
                orig.lemma_multiset_has_no_duplicates();
                cands@.lemma_multiset_has_no_duplicates_conv();
                assert forall|a: int, b: int| 0 <= a < b < cands@.len()
                    implies (#[trigger] cands@[a]).0 != (#[trigger] cands@[b]).0 by {
                    if cands@[a] == cands@[b] {
                        assert(!cands@.no_duplicates());
                    } else if cands@[a].0 == cands@[b].0 {
                        assert(cands@.to_multiset().contains(cands@[a]));
                        assert(orig.contains(cands@[a]));
                        assert(cands@.to_multiset().contains(cands@[b]));
                        assert(orig.contains(cands@[b]));
                        let wa = choose|w: int| 0 <= w < orig.len() && orig[w] == cands@[a];
                        let wb = choose|w: int| 0 <= w < orig.len() && orig[w] == cands@[b];
                        if wa < wb {
                            assert(orig[wa].0 < orig[wb].0);
                        } else if wb < wa {
                            assert(orig[wb].0 < orig[wa].0);
                        }
                        assert(false);
                    }
                }
            }
            let m = cands.len();
            let mut results: Vec<usize> = Vec::new();
            let mut t: usize = 0;
            while t < m
                invariant
                    0 <= t <= m == cands@.len(),
                    results@.len() == t as int,
                    forall|j: int| 0 <= j < t
                        ==> (#[trigger] results@[j]) == cands@[j].0,
                decreases m - t,
            {
                let e = cands[t];
                results.push(e.0);
                t = t + 1;
            }
            self.search_results = results;
        }
        if self.search_results.len() == 0 {
            self.cursor = None;
        } else {
            self.cursor = Some(0);
        }
    }
}

/// The selected rows of the first `n` forks as jobs, in index order.
pub open spec fn jobs_of(forks: Seq<Fork>, selected: Seq<bool>, n: int) -> Seq<SyncJob>
    decreases n,
{
    if n <= 0 {
        Seq::empty()
    } else {
        let p = jobs_of(forks, selected, n - 1);
        if selected[n - 1] {
            p.push(SyncJob { index: (n - 1) as usize, fork: forks[n - 1] })
        } else {
            p
        }
    }
}


/// The language a fork counts under: its primary language, or `Unknown`.
pub open spec fn lang_of(f: crate::types::ForkV) -> Seq<char> {
    match f.primary_language {
        Some(l) => l,
        None => "Unknown"@,
    }
}

/// How many of the first `n` forks count under language `l`.
pub open spec fn count_lang(forks: Seq<Fork>, l: Seq<char>, n: int) -> int
    decreases n,
{
    if n <= 0 {
        0
    } else {
        count_lang(forks, l, n - 1) + if lang_of(forks[n - 1]@) == l {
            1int
        } else {
            0int
        }
    }
}

/// How many of the first `n` forks have a local clone.
pub open spec fn count_cloned(forks: Seq<Fork>, n: int) -> int
    decreases n,
{
    if n <= 0 {
        0
    } else {
        count_cloned(forks, n - 1) + if forks[n - 1]@.is_cloned { 1int } else { 0int }
    }
}

/// How many of the first `n` statuses are `Synced`.
pub open spec fn count_synced_all(sts: Seq<SyncStatus>, n: int) -> int
    decreases n,
{
    if n <= 0 {
        0
    } else {
        count_synced_all(sts, n - 1) + if sts[n - 1]@ is Synced { 1int } else { 0int }
    }
}

/// How many of the first `n` statuses are `Failed` or `Skipped`.
pub open spec fn count_unsynced_all(sts: Seq<SyncStatus>, n: int) -> int
    decreases n,
{
    if n <= 0 {
        0
    } else {
        count_unsynced_all(sts, n - 1) + if sts[n - 1]@ is Failed || sts[n - 1]@ is Skipped {
            1int
        } else {
            0int
        }
    }
}

impl App {
    /// Recomputes the aggregate statistics: the clone and terminal counts,
    /// and up to eight languages with exact per-language counts, most common
    /// first.
    pub fn compute_stats(&mut self)
        requires
            old(self).wf(),
        ensures
            final(self).wf(),
            *final(self) == (App { stats_cache: final(self).stats_cache, ..*old(self) }),
            final(self).stats_cache matches Some(st) && {
                let n = old(self).forks@.len() as int;
                &&& st.total == old(self).forks@.len()
                &&& st.cloned == count_cloned(old(self).forks@, n)
                &&& st.uncloned == n - count_cloned(old(self).forks@, n)
                &&& st.synced == count_synced_all(old(self).statuses@, n)
                &&& st.failed == count_unsynced_all(old(self).statuses@, n)
                &&& st.pending == n - st.synced - st.failed
                &&& st.by_language@.len() <= 8
                &&& (forall|a: int, b: int| 0 <= a < b < st.by_language@.len()
                    ==> (#[trigger] st.by_language@[b]).1 <= (#[trigger] st.by_language@[a]).1)
                &&& (forall|a: int| 0 <= a < st.by_language@.len()
                    ==> (#[trigger] st.by_language@[a]).1
                        == count_lang(old(self).forks@, st.by_language@[a].0@, n))
            },
    {
        let ghost pre = *self;
        let n = self.forks.len();
        let mut cloned: usize = 0;
        let mut synced: usize = 0;
        let mut failed: usize = 0;
        let mut k: usize = 0;
        while k < n
            invariant
                0 <= k <= n == self.forks@.len(),
                self.wf(),
                cloned == count_cloned(self.forks@, k as int),
                synced == count_synced_all(self.statuses@, k as int),
                failed == count_unsynced_all(self.statuses@, k as int),
                cloned <= k,
                synced <= k,
                failed <= k,
            decreases n - k,
        {
            if self.forks[k].is_cloned {
                cloned = cloned + 1;
            }
            match &self.statuses[k] {
                SyncStatus::Synced(_) => {
                    synced = synced + 1;
                },
                SyncStatus::Failed(_) => {
                    failed = failed + 1;
                },
                SyncStatus::Skipped(_) => {
                    failed = failed + 1;
                },
                _ => {},
            }
            k = k + 1;
        }
        proof {
            lemma_count_bounds(self.statuses@, n as int);
        }
        let mut hist: Vec<(String, u64)> = Vec::new();
        let mut k2: usize = 0;
        while k2 < n
            invariant
                0 <= k2 <= n == self.forks@.len(),
                self.wf(),
                forall|a: int, b: int| 0 <= a < b < hist@.len()
                    ==> (#[trigger] hist@[a]).0@ != (#[trigger] hist@[b]).0@,
                forall|a: int| 0 <= a < hist@.len() ==> {
                    &&& (#[trigger] hist@[a]).1
                        == count_lang(self.forks@, hist@[a].0@, k2 as int)
                    &&& hist@[a].1 <= k2
                },
                forall|l: Seq<char>| #[trigger] count_lang(self.forks@, l, k2 as int) > 0
                    ==> exists|a: int| 0 <= a < hist@.len() && (#[trigger] hist@[a]).0@ == l,
            decreases n - k2,
        {
            let lang = match &self.forks[k2].primary_language {
                Some(l) => l.clone(),
                None => "Unknown".to_owned(),
            };
            proof {
                assert(lang@ == lang_of(self.forks@[k2 as int]@));
            }
            let h = hist.len();
            let mut found: Option<usize> = None;
            let mut t: usize = 0;
            while t < h
                invariant
                    0 <= t <= h == hist@.len(),
                    found matches Some(p) ==> p < h && hist@[p as int].0@ == lang@,
                    found is None ==> forall|a: int| 0 <= a < t
                        ==> (#[trigger] hist@[a]).0@ != lang@,
                decreases h - t,
            {
                if found.is_none() && hist[t].0 == lang {
                    found = Some(t);
                }
                t = t + 1;
            }
            let ghost hist_pre = hist@;
            match found {
                Some(p) => {
                    let label = hist[p].0.clone();
                    let c = hist[p].1;
                    hist[p] = (label, c + 1);
                    proof {
                        assert forall|a: int| 0 <= a < hist@.len() implies {
                            &&& (#[trigger] hist@[a]).1
                                == count_lang(self.forks@, hist@[a].0@, k2 + 1)
                            &&& hist@[a].1 <= k2 + 1
                        } by {
                            if a == p as int {
                            } else {
                                assert(hist@[a] == hist_pre[a]);
                                assert(hist_pre[a].0@ != lang@);
                            }
                        }
                        assert forall|l: Seq<char>| #[trigger] count_lang(self.forks@, l, k2 + 1)
                            > 0 implies exists|a: int| 0 <= a < hist@.len()
                                && (#[trigger] hist@[a]).0@ == l by {
                            if count_lang(self.forks@, l, k2 as int) > 0 {
                                let w = choose|a: int| 0 <= a < hist_pre.len()
                                    && (#[trigger] hist_pre[a]).0@ == l;
                                assert(hist@[w].0@ == l);
                            } else {
                                assert(l == lang@);
                                assert(hist@[p as int].0@ == l);
                            }
                        }
                    }
                },
                None => {
                    proof {
                        lemma_count_lang_nonneg(self.forks@, lang@, k2 as int);
                        if count_lang(self.forks@, lang@, k2 as int) > 0 {
                            let w = choose|a: int| 0 <= a < hist_pre.len()
                                && (#[trigger] hist_pre[a]).0@ == lang@;
                            assert(false);
                        }
                        assert(count_lang(self.forks@, lang@, k2 as int) == 0);
                    }
                    hist.push((lang, 1));
                    proof {
                        assert forall|a: int| 0 <= a < hist@.len() implies {
                            &&& (#[trigger] hist@[a]).1
                                == count_lang(self.forks@, hist@[a].0@, k2 + 1)
                            &&& hist@[a].1 <= k2 + 1
                        } by {
                            if a < hist_pre.len() {
                                assert(hist@[a] == hist_pre[a]);
                                assert(hist_pre[a].0@ != lang@);
                            } else {
                                assert(hist@[a].0@ == lang@);
                            }
                        }
                        assert forall|l: Seq<char>| #[trigger] count_lang(self.forks@, l, k2 + 1)
                            > 0 implies exists|a: int| 0 <= a < hist@.len()
                                && (#[trigger] hist@[a]).0@ == l by {
                            if count_lang(self.forks@, l, k2 as int) > 0 {
                                let w = choose|a: int| 0 <= a < hist_pre.len()
                                    && (#[trigger] hist_pre[a]).0@ == l;
                                assert(hist@[w].0@ == l);
                            } else {
                                assert(hist@[hist@.len() - 1].0@ == l);
                            }
                        }
                    }
                },
            }
            k2 = k2 + 1;
        }
        let ghost full_hist = hist@;
        let mut by_language: Vec<(String, u64)> = Vec::new();
        while by_language.len() < 8 && hist.len() > 0
            invariant
                self.wf(),
                n == self.forks@.len(),
                forall|a: int| 0 <= a < hist@.len()
                    ==> (#[trigger] hist@[a]).1 == count_lang(self.forks@, hist@[a].0@, n as int),
                forall|a: int| 0 <= a < by_language@.len()
                    ==> (#[trigger] by_language@[a]).1
                        == count_lang(self.forks@, by_language@[a].0@, n as int),
                forall|a: int, b: int| 0 <= a < b < by_language@.len()
                    ==> (#[trigger] by_language@[b]).1 <= (#[trigger] by_language@[a]).1,
                by_language@.len() > 0 ==> forall|a: int| 0 <= a < hist@.len()
                    ==> (#[trigger] hist@[a]).1
                        <= by_language@[by_language@.len() - 1].1,
                by_language@.len() <= 8,
            decreases hist@.len(),
        {
            let m = hist.len();
            let mut best: usize = 0;
            let mut t: usize = 1;
            while t < m
                invariant
                    0 < m == hist@.len(),
                    0 <= best < t <= m,
                    forall|a: int| 0 <= a < t ==> (#[trigger] hist@[a]).1
                        <= hist@[best as int].1,
                decreases m - t,
            {
                if hist[t].1 > hist[best].1 {
                    best = t;
                }
                t = t + 1;
            }
            let ghost hist_pre = hist@;
            let e = hist.swap_remove(best);
            proof {
                assert forall|a: int| 0 <= a < hist@.len() implies {
                    &&& (#[trigger] hist@[a]).1
                        == count_lang(self.forks@, hist@[a].0@, n as int)
                    &&& hist@[a].1 <= e.1
                } by {
                    if a == best as int {
                        assert(hist@[a] == hist_pre[hist_pre.len() - 1]);
                    } else {
                        assert(hist@[a] == hist_pre[a]);
                    }
                }
            }
            by_language.push(e);
        }
        self.stats_cache = Some(ForkStats {
            by_language,
            total: n,
            cloned,
            uncloned: n - cloned,
            synced,
            pending: n - synced - failed,
            failed,
        });
    }
}

impl App {
    /// Removes one fork row (after an archive or delete): the three row
    /// tables lose the row and the filter is recomputed. An out-of-range
    /// index changes nothing.
    pub fn remove_fork(&mut self, idx: usize)
        requires
            old(self).wf(),
        ensures
            final(self).wf(),
            idx < old(self).forks@.len() ==> {
                &&& final(self).forks@ == old(self).forks@.remove(idx as int)
                &&& final(self).statuses@ == old(self).statuses@.remove(idx as int)
                &&& final(self).selected@ == old(self).selected@.remove(idx as int)
                &&& final(self).search_ok()
                &&& *final(self) == (App {
                    forks: final(self).forks,
                    statuses: final(self).statuses,
                    selected: final(self).selected,
                    search_results: final(self).search_results,
                    cursor: final(self).cursor,
                    ..*old(self)
                })
            },
            idx >= old(self).forks@.len() ==> *final(self) == *old(self),
    {
        if idx < self.forks.len() {
            self.forks.remove(idx);
            self.statuses.remove(idx);
            self.selected.remove(idx);
            self.update_search();
        }
    }

    /// Applies one progress event, the only way worker results reach this
    /// state: a status update overwrites one row's status; a clone marks the
    /// row cloned; an archive or delete removes the row; a refresh replaces
    /// the whole list and resets the row tables; a refresh failure records
    /// the cache as offline with a message; an actionable error opens the
    /// error popup.
    pub fn apply_event(&mut self, ev: SyncResult, now_ms: u64)
        requires
            old(self).wf(),
        ensures
            final(self).wf(),
            ev matches SyncResult::StatusUpdate(i, st) ==> {
                &&& (i < old(self).statuses@.len() ==> {
                    &&& final(self).statuses@ == old(self).statuses@.update(i as int, st)
                    &&& *final(self) == (App {
                        statuses: final(self).statuses,
                        ..*old(self)
                    })
                })
                &&& (i >= old(self).statuses@.len() ==> *final(self) == *old(self))
            },
            ev matches SyncResult::ForkCloned(i) ==> {
                &&& (i < old(self).forks@.len() ==> {
                    &&& final(self).forks@.len() == old(self).forks@.len()
                    &&& final(self).forks@[i as int]@ == (crate::types::ForkV {
                        is_cloned: true,
                        ..old(self).forks@[i as int]@
                    })
                    &&& (forall|j: int| 0 <= j < old(self).forks@.len() && j != i
                        ==> (#[trigger] final(self).forks@[j]) == old(self).forks@[j])
                    &&& *final(self) == (App { forks: final(self).forks, ..*old(self) })
                })
                &&& (i >= old(self).forks@.len() ==> *final(self) == *old(self))
            },
            ev matches SyncResult::ForkArchived(i) ==> (i < old(self).forks@.len() ==> {
                &&& final(self).forks@ == old(self).forks@.remove(i as int)
                &&& final(self).statuses@ == old(self).statuses@.remove(i as int)
                &&& final(self).selected@ == old(self).selected@.remove(i as int)
                &&& final(self).search_ok()
            }),
            ev matches SyncResult::ForkDeleted(i) ==> (i < old(self).forks@.len() ==> {
                &&& final(self).forks@ == old(self).forks@.remove(i as int)
                &&& final(self).statuses@ == old(self).statuses@.remove(i as int)
                &&& final(self).selected@ == old(self).selected@.remove(i as int)
                &&& final(self).search_ok()
            }),
            ev matches SyncResult::ForksRefreshed(list) ==> {
                &&& final(self).forks == list
                &&& final(self).statuses@.len() == list@.len()
                &&& (forall|j: int| 0 <= j < list@.len()
                    ==> (#[trigger] final(self).statuses@[j])@ is Pending)
                &&& (forall|j: int| 0 <= j < list@.len()
                    ==> !(#[trigger] final(self).selected@[j]))
                &&& final(self).search_ok()
                &&& final(self).cache_status == CacheStatus::Fresh
            },
            ev matches SyncResult::RefreshFailed(m) ==> {
                &&& final(self).cache_status == CacheStatus::Offline
                &&& final(self).status_message matches Some(sm) && sm.0@ == m@ && sm.1 == now_ms
                &&& *final(self) == (App {
                    cache_status: CacheStatus::Offline,
                    status_message: final(self).status_message,
                    ..*old(self)
                })
            },
            ev matches SyncResult::ActionableError(d) ==> {
                &&& final(self).error_details == Some(d)
                &&& final(self).mode == Mode::ErrorPopup
                &&& final(self).modal_button == 1
                &&& *final(self) == (App {
                    error_details: final(self).error_details,
                    mode: Mode::ErrorPopup,
                    modal_button: 1,
                    ..*old(self)
                })
            },
    {
        match ev {
            SyncResult::StatusUpdate(i, st) => {
                if i < self.statuses.len() {
                    self.statuses[i] = st;
                }
            },
            SyncResult::ForkCloned(i) => {
                if i < self.forks.len() {
                    let mut f = (&self.forks[i]).clone();
                    f.is_cloned = true;
                    self.forks[i] = f;
                }
            },
            SyncResult::ForkArchived(i) => {
                self.remove_fork(i);
            },
            SyncResult::ForkDeleted(i) => {
                self.remove_fork(i);
            },
            SyncResult::ForksRefreshed(list) => {
                let n = list.len();
                let mut statuses: Vec<SyncStatus> = Vec::new();
                let mut selected: Vec<bool> = Vec::new();
                let mut k: usize = 0;
                while k < n
                    invariant
                        0 <= k <= n,
                        statuses@.len() == k as int,
                        selected@.len() == k as int,
                        forall|j: int| 0 <= j < k ==> (#[trigger] statuses@[j])@ is Pending,
                        forall|j: int| 0 <= j < k ==> !(#[trigger] selected@[j]),
                    decreases n - k,
                {
                    statuses.push(SyncStatus::Pending);
                    selected.push(false);
                    k = k + 1;
                }
                self.forks = list;
                self.statuses = statuses;
                self.selected = selected;
                self.cache_status = CacheStatus::Fresh;
                self.update_search();
            },
            SyncResult::RefreshFailed(m) => {
                self.cache_status = CacheStatus::Offline;
                self.status_message = Some((m, now_ms));
            },
            SyncResult::ActionableError(d) => {
                self.error_details = Some(d);
                self.mode = Mode::ErrorPopup;
                self.modal_button = 1;
            },
        }
    }
}

/// A language count lies between zero and the prefix length.
proof fn lemma_count_lang_nonneg(forks: Seq<Fork>, l: Seq<char>, n: int)
    requires
        0 <= n,
    ensures
        0 <= count_lang(forks, l, n) <= n,
    decreases n,
{
    if n > 0 {
        lemma_count_lang_nonneg(forks, l, n - 1);
    }
}

/// The terminal counts never exceed the table length, and never overlap.
proof fn lemma_count_bounds(sts: Seq<SyncStatus>, n: int)
    requires
        0 <= n <= sts.len(),
    ensures
        0 <= count_synced_all(sts, n),
        0 <= count_unsynced_all(sts, n),
        count_synced_all(sts, n) + count_unsynced_all(sts, n) <= n,
    decreases n,
{
    if n > 0 {
        lemma_count_bounds(sts, n - 1);
    }
}

} // verus!
