//! The caller-supplied parameters of the three operations.

use vstd::prelude::*;

verus! {

/// What a create-entry call needs: the target collection and the
/// property payload of the new entry.
pub struct CreateDatabaseEntryParameters {
    pub database_id: String,
    pub properties: serde_json::Value,
}

/// What a query call needs: the target collection, an optional filter,
/// an optional page size (positive; 100 when absent), and an optional
/// opaque pagination cursor.
pub struct QueryDatabaseParameters {
    pub database_id: String,
    pub filter: Option<serde_json::Value>,
    pub page_size: Option<u32>,
    pub start_cursor: Option<String>,
}

/// What an update-entry call needs: the target entry and the property
/// payload to apply.
pub struct UpdateDatabaseEntryParameters {
    pub entry_id: String,
    pub properties: serde_json::Value,
}

} // verus!
