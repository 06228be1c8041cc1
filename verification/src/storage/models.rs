//! Rows of the file registry and of the pending actions.
use vstd::prelude::*;

use crate::paths::{path_is_absolute, path_is_absolute_of, path_join, path_join_of};
use crate::text::str_eq;

verus! {

/// A file known to the registry. Times are seconds since the Unix epoch.
#[derive(Debug, Clone)]
pub struct FileRecord {
    pub id: i64,
    pub file_path: String,
    pub file_hash: String,
    pub original_name: String,
    pub categorized_name: Option<String>,
    pub category: Option<String>,
    pub destination_path: Option<String>,
    pub status: String,
    pub created_at: i64,
    pub updated_at: i64,
}

/// An action waiting to be carried out. Times are seconds since the Unix
/// epoch.
#[derive(Debug, Clone)]
pub struct PendingAction {
    pub id: i64,
    pub file_id: i64,
    pub action_type: String,
    pub source_path: String,
    pub destination_path: String,
    pub executed: bool,
    pub created_at: i64,
}

/// Where a record's file goes: its destination, taken relative to
/// `base_dir` unless absolute; a record without destination stays where it
/// is.
pub open spec fn full_destination_of(record: FileRecord, base_dir: Seq<char>) -> Seq<char> {
    match record.destination_path {
        Some(dest) => if path_is_absolute_of(dest@) {
            dest@
        } else {
            path_join_of(base_dir, dest@)
        },
        None => record.file_path@,
    }
}

impl FileRecord {
    /// Check if file is a duplicate: it has the given hash.
    pub fn is_duplicate(&self, hash: &str) -> (b: bool)
        ensures
            b == (self.file_hash@ == hash@),
    {
        str_eq(self.file_hash.as_str(), hash)
    }

    /// Get full destination path
    pub fn full_destination_path(&self, base_dir: &str) -> (r: String)
        ensures
            r@ == full_destination_of(*self, base_dir@),
    {
        match &self.destination_path {
            Some(dest) => {
                if path_is_absolute(dest.as_str()) {
                    dest.clone()
                } else {
                    path_join(base_dir, dest.as_str())
                }
            },
            None => self.file_path.clone(),
        }
    }
}

} // verus!
