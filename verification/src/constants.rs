//! Shared constants for timeline paging and the E2E fixtures.

use vstd::prelude::*;

use crate::record_id::RecordId;

verus! {

/// Page size for timeline infinite scroll (server + client).
pub const RECORD_HISTORY_PAGE_SIZE: u32 = 25;

/// Bare PK for the platform E2E fixture parent (`e2e_history_source_a`).
pub const E2E_RECORD_HISTORY_SOURCE_ID: &'static str = "e2e-history-source-001";

/// Bare PK for the empty-state preview parent (no history rows).
pub const E2E_RECORD_HISTORY_EMPTY_SOURCE_ID: &'static str = "e2e-history-empty";

/// Table name of the E2E fixture history implementor.
pub const E2E_RECORD_HISTORY_KIND: &'static str = "e2e_record_history_fixture";

/// Number of rows the timeline fixture seeds.
pub const E2E_RECORD_HISTORY_ROW_COUNT: u32 = 35;

/// `RecordId` of the seeded timeline parent (`e2e_history_source_a`).
pub fn e2e_record_history_source() -> (r: RecordId)
    ensures
        r@ == ("e2e_history_source_a"@, E2E_RECORD_HISTORY_SOURCE_ID@),
{
    RecordId::new("e2e_history_source_a", E2E_RECORD_HISTORY_SOURCE_ID)
}

/// `RecordId` of the empty-state preview parent (`e2e_history_source_b`).
pub fn e2e_record_history_empty_source() -> (r: RecordId)
    ensures
        r@ == ("e2e_history_source_b"@, E2E_RECORD_HISTORY_EMPTY_SOURCE_ID@),
{
    RecordId::new("e2e_history_source_b", E2E_RECORD_HISTORY_EMPTY_SOURCE_ID)
}

} // verus!
