//! What a run over movies or series does once the entries are known.

use vstd::prelude::*;
use crate::uniq::{first_appearances, unique_ids};

verus! {

/// What a run does with the library entries that it found.
#[derive(Debug, PartialEq, Eq)]
pub enum CleanupPlan {
    /// The tracker reported nothing watched; the run ends well.
    NothingWatched,
    /// Nothing in the library is to be deleted; the run ends well.
    NothingToDelete,
    /// Delete the entries with these ids and their files, then the
    /// downloads that they came from.
    Delete { ids: Vec<u64> },
    /// Change nothing: list the entries with these ids and their downloads.
    List { ids: Vec<u64> },
}

/// A plan with the ids as a sequence.
pub enum PlanView {
    NothingWatched,
    NothingToDelete,
    Delete { ids: Seq<u64> },
    List { ids: Seq<u64> },
}

impl View for CleanupPlan {
    type V = PlanView;

    open spec fn view(&self) -> PlanView {
        match self {
            CleanupPlan::NothingWatched => PlanView::NothingWatched,
            CleanupPlan::NothingToDelete => PlanView::NothingToDelete,
            CleanupPlan::Delete { ids } => PlanView::Delete { ids: ids@ },
            CleanupPlan::List { ids } => PlanView::List { ids: ids@ },
        }
    }
}

/// The plan for a run that found `watched` watched items and the library
/// entries with `ids`: the ids each once, in the order of their first
/// appearance.
pub open spec fn plan_for(watched: nat, ids: Seq<u64>, force_delete: bool) -> PlanView {
    if watched == 0 {
        PlanView::NothingWatched
    } else if ids.len() == 0 {
        PlanView::NothingToDelete
    } else if force_delete {
        PlanView::Delete { ids: first_appearances(ids) }
    } else {
        PlanView::List { ids: first_appearances(ids) }
    }
}

/// Without the leave to delete, no plan deletes.
pub proof fn lemma_dry_run_deletes_nothing(watched: nat, ids: Seq<u64>)
    ensures
        !(plan_for(watched, ids, false) is Delete),
{
}

/// Decides what a run does with the entries that it found.
pub fn plan_cleanup(watched: usize, ids: &[u64], force_delete: bool) -> (plan: CleanupPlan)
    ensures
        plan@ == plan_for(watched as nat, ids@, force_delete),
{
    if watched == 0 {
        CleanupPlan::NothingWatched
    } else if ids.len() == 0 {
        CleanupPlan::NothingToDelete
    } else if force_delete {
        CleanupPlan::Delete { ids: unique_ids(ids) }
    } else {
        CleanupPlan::List { ids: unique_ids(ids) }
    }
}

} // verus!
