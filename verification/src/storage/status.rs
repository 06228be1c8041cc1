//! The summary of the triage state.
use vstd::prelude::*;

verus! {

/// Counts of the registry and of the pending actions.
#[derive(Debug)]
pub struct TriageStatus {
    pub pending_actions: u32,
    pub total_files: u32,
    pub categorized_files: u32,
}

impl TriageStatus {
    /// Builds the summary from the counts the database reports, each cast to
    /// `u32` as the registry does (keeping the low 32 bits).
    pub fn from_counts(pending: i64, total: i64, categorized: i64) -> (s: Self)
        ensures
            s.pending_actions == pending as u32,
            s.total_files == total as u32,
            s.categorized_files == categorized as u32,
    {
        TriageStatus {
            pending_actions: pending as u32,
            total_files: total as u32,
            categorized_files: categorized as u32,
        }
    }
}

} // verus!
