//! The page DTO for one audit row, shared between the server mapping and
//! client rendering.

use vstd::prelude::*;

use crate::format::{change_line, format_change_line};
use crate::instant::rfc3339_text;
use crate::model::RecordHistoryModel;
use crate::record_id::history_row_identity;

verus! {

/// Wire type for a single audit row in the timeline (server → client).
///
/// Carries a preformatted [`change_line`](Self::change_line) for the stock UI
/// plus the raw [`old_value`](Self::old_value) / [`new_value`](Self::new_value)
/// so custom renderers can build field diffs without another load.
/// [`kind`](Self::kind) and [`row_id`](Self::row_id) route renderers.
#[derive(Debug, Clone, PartialEq, Eq)]
pub struct HistoryRowView {
    /// Concrete history table name (`tag_history`, `e2e_record_history_fixture`, …).
    pub kind: String,
    /// Bare history-row PK.
    pub row_id: String,
    /// Name of the field that changed (`created` / `deleted` for lifecycle rows).
    pub field_name: String,
    /// Previous value (may be empty for creates / edge adds).
    pub old_value: String,
    /// New value (may be empty for deletes / edge removes).
    pub new_value: String,
    /// RFC 3339 timestamp for display.
    pub changed_at: String,
    /// Resolved actor label (display name, opaque `User …`, or `System`).
    pub actor_label: String,
    /// `/user/{id}` when the actor has a safe profile link.
    pub actor_href: Option<String>,
    /// Default line from [`format_change_line`].
    pub change_line: String,
}

/// Mathematical content of a [`HistoryRowView`].
pub struct HistoryRowSpec {
    pub kind: Seq<char>,
    pub row_id: Seq<char>,
    pub field_name: Seq<char>,
    pub old_value: Seq<char>,
    pub new_value: Seq<char>,
    pub changed_at: Seq<char>,
    pub actor_label: Seq<char>,
    pub actor_href: Option<Seq<char>>,
    pub change_line: Seq<char>,
}

/// View of an optional string.
pub open spec fn opt_text(s: Option<String>) -> Option<Seq<char>> {
    match s {
        Some(t) => Some(t@),
        None => None,
    }
}

impl View for HistoryRowView {
    type V = HistoryRowSpec;

    open spec fn view(&self) -> HistoryRowSpec {
        HistoryRowSpec {
            kind: self.kind@,
            row_id: self.row_id@,
            field_name: self.field_name@,
            old_value: self.old_value@,
            new_value: self.new_value@,
            changed_at: self.changed_at@,
            actor_label: self.actor_label@,
            actor_href: opt_text(self.actor_href),
            change_line: self.change_line@,
        }
    }
}

/// The DTO a model row with an id maps to, given the actor presentation.
pub open spec fn row_view_of(
    m: RecordHistoryModel,
    actor_label: Seq<char>,
    actor_href: Option<Seq<char>>,
) -> HistoryRowSpec {
    HistoryRowSpec {
        kind: m.id->0.table@,
        row_id: m.id->0.id@,
        field_name: m.field_name@,
        old_value: m.old_value@,
        new_value: m.new_value@,
        changed_at: rfc3339_text(m.changed_at@.0, m.changed_at@.1),
        actor_label,
        actor_href,
        change_line: change_line(m.field_name@, m.old_value@, m.new_value@),
    }
}

/// Map a history row into the page DTO, given the actor's resolved label and
/// link. Rows without an id cannot be routed and yield `None`.
pub fn into_history_row_view(
    model: RecordHistoryModel,
    actor_label: String,
    actor_href: Option<String>,
) -> (r: Option<HistoryRowView>)
    ensures
        model.id is None ==> r is None,
        model.id is Some ==> (r matches Some(v) && v@ == row_view_of(
            model,
            actor_label@,
            opt_text(actor_href),
        )),
{
    let change_line = format_change_line(&model);
    let changed_at = model.changed_at.to_rfc3339();
    match &model.id {
        None => None,
        Some(id) => {
            let (kind, row_id) = history_row_identity(id);
            let kind = kind.to_owned();
            let row_id = row_id.to_owned();
            Some(
                HistoryRowView {
                    kind,
                    row_id,
                    field_name: model.field_name,
                    old_value: model.old_value,
                    new_value: model.new_value,
                    changed_at,
                    actor_label,
                    actor_href,
                    change_line,
                },
            )
        },
    }
}

} // verus!
