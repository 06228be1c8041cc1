//! Decisions the registry makes about what its SQL statements report.
use vstd::prelude::*;

verus! {

/// Where the id of an upserted file record comes from.
#[derive(Debug, PartialEq, Eq, Structural)]
pub enum UpsertedId {
    /// Read the record back by its path.
    FetchByPath,
    /// Take the row id of the last insert.
    LastInsertRowid,
}

/// After an upsert that touched `rows_affected` rows: when a row was
/// inserted or updated its id is read back by path, otherwise the last
/// insert's row id is used.
pub fn upserted_id_source(rows_affected: u64) -> (s: UpsertedId)
    ensures
        s == (if rows_affected > 0 {
            UpsertedId::FetchByPath
        } else {
            UpsertedId::LastInsertRowid
        }),
{
    if rows_affected > 0 {
        UpsertedId::FetchByPath
    } else {
        UpsertedId::LastInsertRowid
    }
}

} // verus!
