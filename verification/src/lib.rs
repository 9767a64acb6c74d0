//! Audit-history helpers for a shared record timeline.
//!
//! - **Write payloads** ([`write`]): standard `field_name` / `old_value` /
//!   `new_value` triples for scalar changes, relation edges and lifecycle rows.
//! - **Line formatting** ([`format`]): the default change line and the full
//!   `[Actor] …` audit line.
//! - **Parent authorization** ([`authorize`]): the fail-closed gates a
//!   source-scoped history read passes before any row is loaded.
//! - **Source-scoped rows** ([`model`]): the shared row model and the mapping
//!   of one history table's rows into it.
//! - **Paging** ([`page`]): sanitized page arguments, newest-first ordering,
//!   kind filtering, windowing and page metadata.
//! - **Timeline mapping** ([`row_view`], [`actor`], [`entry`]): the page DTO,
//!   actor presentation and the client-side timeline entry.
//! - **Requests** ([`source_read`], [`page_request`]): the authorized
//!   source-scoped read and the timeline page request as state machines whose
//!   outside steps the caller performs.
//!
//! Store access, sessions and rendering are outside steps; their results are
//! handed to these functions as plain values.

pub mod actor;
pub mod authorize;
pub mod constants;
pub mod entry;
pub mod error;
pub mod format;
pub mod instant;
pub mod laws;
pub mod model;
pub mod order;
pub mod page;
pub mod page_request;
pub mod record_id;
pub mod row_view;
pub mod source_read;
pub mod text;
pub mod timeline;
pub mod write;

pub use actor::actor_profile_href;
pub use constants::{
    e2e_record_history_empty_source, e2e_record_history_source, E2E_RECORD_HISTORY_EMPTY_SOURCE_ID,
    E2E_RECORD_HISTORY_KIND, E2E_RECORD_HISTORY_ROW_COUNT, E2E_RECORD_HISTORY_SOURCE_ID,
    RECORD_HISTORY_PAGE_SIZE,
};
pub use entry::{history_row_view_to_entry, map_history_page, HistoryActor, HistoryChange, HistoryEntry};
pub use error::{HistoryAccessDeniedReason, HistoryError, HISTORY_ACCESS_DENIED};
pub use format::{format_change_line, format_line};
pub use instant::UtcInstant;
pub use model::RecordHistoryModel;
pub use page::{
    clamp_history_page_limit, clamp_history_page_offset, sanitize_kind_filter, Page,
    MAX_HISTORY_PAGE_LIMIT, MAX_HISTORY_PAGE_OFFSET,
};
pub use record_id::{history_row_identity, RecordId};
pub use row_view::HistoryRowView;
pub use write::{
    history_created, history_deleted, history_edge_added, history_edge_removed,
    history_field_changed, HistoryWriteParts,
};
