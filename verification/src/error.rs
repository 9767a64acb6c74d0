//! Typed failures for history reads and parent authorization.

use vstd::prelude::*;

verus! {

/// Client-safe message for every access denial and for the timeline page.
pub const HISTORY_ACCESS_DENIED: &'static str = "Not authorized to view this history";

/// Message shown for a failed store query.
pub const HISTORY_QUERY_FAILED: &'static str = "history query failed";

/// Why [`HistoryError::AccessDenied`] fired. Inspectable in tests and logs;
/// never part of the message.
#[derive(Debug, Clone, Copy, PartialEq, Eq, Structural)]
pub enum HistoryAccessDeniedReason {
    /// No row for the source `RecordId`.
    MissingSource,
    /// Table is not a registered `HistorySource` implementor, or has no schema.
    UnsupportedSource,
    /// Request actor failed the parent record's Read policy.
    ParentReadDenied,
}

/// Failures of source-scoped history reads and parent authorization.
///
/// [`HistoryError::AccessDenied`] carries one message for missing, unsupported
/// and parent-read denial so clients cannot tell those cases apart.
#[derive(Debug, Clone, PartialEq, Eq)]
pub enum HistoryError {
    /// Parent authorization failed closed.
    AccessDenied {
        /// Classification for tests and logs (not shown in the message).
        reason: HistoryAccessDeniedReason,
    },
    /// Store query, get, or mapping failure after authorization.
    Query {
        /// Description of the underlying store failure.
        source: String,
    },
}

/// The message a history error displays.
pub open spec fn history_error_message(e: HistoryError) -> Seq<char> {
    match e {
        HistoryError::AccessDenied { .. } => HISTORY_ACCESS_DENIED@,
        HistoryError::Query { .. } => HISTORY_QUERY_FAILED@,
    }
}

impl HistoryError {
    /// A fail-closed authorization error.
    pub fn access_denied(reason: HistoryAccessDeniedReason) -> (e: HistoryError)
        ensures
            e == (HistoryError::AccessDenied { reason }),
    {
        HistoryError::AccessDenied { reason }
    }

    /// A store failure after authorization.
    pub fn query(source: String) -> (e: HistoryError)
        ensures
            e == (HistoryError::Query { source }),
    {
        HistoryError::Query { source }
    }

    /// True when the failure is fail-closed authorization (not a query error).
    pub fn is_access_denied(&self) -> (r: bool)
        ensures
            r == (self is AccessDenied),
    {
        match self {
            HistoryError::AccessDenied { .. } => true,
            HistoryError::Query { .. } => false,
        }
    }

    /// The display message: [`HISTORY_ACCESS_DENIED`] for every denial, and
    /// [`HISTORY_QUERY_FAILED`] for store failures. Neither names the record.
    pub fn message(&self) -> (r: String)
        ensures
            r@ == history_error_message(*self),
    {
        match self {
            HistoryError::AccessDenied { .. } => String::from_str(HISTORY_ACCESS_DENIED),
            HistoryError::Query { .. } => String::from_str(HISTORY_QUERY_FAILED),
        }
    }
}

} // verus!
