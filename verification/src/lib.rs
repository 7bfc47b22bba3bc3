//! Fork reconciliation engine: the per-fork state machine that drives a
//! sync, clone, archive or delete operation for one GitHub fork, the
//! sequential batch runner, and the progress-event vocabulary they report
//! through. All external work (processes, filesystem, terminal) is issued
//! as a directive and answered with an outcome, so the decision logic here
//! is fully verified.
//!
//! The safety discipline is proved over each run's command history: a run
//! that skips a fork for unpushed commits completed only observations
//! ([`reconcile::lemma_skipped_leaves_tree_untouched`]), and a run that fails
//! after mutating the working copy restores its branch and stash when the
//! rollback commands succeed ([`reconcile::lemma_failed_rollback_restores`]).
//! Dry runs never ask for a command or a filesystem probe, and the batch
//! runner reports jobs strictly in order.

pub mod strings;
pub mod types;
pub mod invoke;
pub mod reconcile;
pub mod single;
pub mod batch;
pub mod github;
pub mod cache;
pub mod app;
pub mod handlers;
