//! Helpers for constructing history field / edge write payloads.
//!
//! Products still create the concrete history rows themselves. These helpers
//! standardize `field_name` / `old_value` / `new_value` for scalar and relation
//! events so the formatter and the timeline entry mapping stay consistent.

use vstd::prelude::*;

verus! {

/// Parts needed to construct a concrete `RecordHistory` implementor row.
#[derive(Debug, Clone, PartialEq, Eq)]
pub struct HistoryWriteParts {
    /// Field or synthetic relation name (`name`, `member_users`, …).
    pub field_name: String,
    /// Previous value (empty string for creates / edge adds).
    pub old_value: String,
    /// New value (empty string for deletes / edge removes).
    pub new_value: String,
}

impl HistoryWriteParts {
    /// The three text fields of the payload, in order.
    pub open spec fn texts(self) -> (Seq<char>, Seq<char>, Seq<char>) {
        (self.field_name@, self.old_value@, self.new_value@)
    }
}

/// Scalar field change (both sides non-empty by convention).
pub fn history_field_changed(field: &str, old_value: &str, new_value: &str) -> (parts:
    HistoryWriteParts)
    ensures
        parts.texts() == (field@, old_value@, new_value@),
{
    HistoryWriteParts {
        field_name: field.to_owned(),
        old_value: old_value.to_owned(),
        new_value: new_value.to_owned(),
    }
}

/// Relation / edge add: empty `old_value`, target id in `new_value`.
pub fn history_edge_added(field: &str, target_id: &str) -> (parts: HistoryWriteParts)
    ensures
        parts.texts() == (field@, Seq::<char>::empty(), target_id@),
{
    HistoryWriteParts {
        field_name: field.to_owned(),
        old_value: String::new(),
        new_value: target_id.to_owned(),
    }
}

/// Relation / edge remove: target id in `old_value`, empty `new_value`.
pub fn history_edge_removed(field: &str, target_id: &str) -> (parts: HistoryWriteParts)
    ensures
        parts.texts() == (field@, target_id@, Seq::<char>::empty()),
{
    HistoryWriteParts {
        field_name: field.to_owned(),
        old_value: target_id.to_owned(),
        new_value: String::new(),
    }
}

/// Lifecycle create row (`field_name = "created"`).
pub fn history_created(label: &str) -> (parts: HistoryWriteParts)
    ensures
        parts.texts() == ("created"@, Seq::<char>::empty(), label@),
{
    HistoryWriteParts {
        field_name: "created".to_owned(),
        old_value: String::new(),
        new_value: label.to_owned(),
    }
}

/// Lifecycle delete row (`field_name = "deleted"`).
pub fn history_deleted(label: &str) -> (parts: HistoryWriteParts)
    ensures
        parts.texts() == ("deleted"@, Seq::<char>::empty(), label@),
{
    HistoryWriteParts {
        field_name: "deleted".to_owned(),
        old_value: String::new(),
        new_value: label.to_owned(),
    }
}

} // verus!
