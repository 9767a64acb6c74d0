//! The shared `RecordHistory` row model and the per-table load mapping.
//!
//! Every concrete history table stores the same audit fields: `source`,
//! `field_name`, `old_value`, `new_value`, `changed_at` and an optional
//! `actor`. A source-scoped read loads each table's rows and maps them into
//! [`RecordHistoryModel`], forcing each row id onto the table it was read from.

use vstd::prelude::*;

use crate::instant::UtcInstant;
use crate::record_id::RecordId;

verus! {

/// View of an optional record reference.
pub open spec fn opt_record_view(r: Option<RecordId>) -> Option<(Seq<char>, Seq<char>)> {
    match r {
        Some(id) => Some(id@),
        None => None,
    }
}

/// Mathematical content of one history row.
pub struct RecordHistoryView {
    pub id: Option<(Seq<char>, Seq<char>)>,
    pub source: (Seq<char>, Seq<char>),
    pub field_name: Seq<char>,
    pub old_value: Seq<char>,
    pub new_value: Seq<char>,
    pub changed_at: (int, int),
    pub actor: Option<(Seq<char>, Seq<char>)>,
}

/// One audit row of any `RecordHistory` implementor (the trait model).
#[derive(Debug, Clone, PartialEq, Eq)]
pub struct RecordHistoryModel {
    /// Row id (`table:pk`); the table names the concrete history kind.
    pub id: Option<RecordId>,
    /// The audited parent record.
    pub source: RecordId,
    /// Field or relation name (`created` / `deleted` for lifecycle rows).
    pub field_name: String,
    /// Previous value (empty for creates and edge adds).
    pub old_value: String,
    /// New value (empty for deletes and edge removes).
    pub new_value: String,
    /// When the change happened.
    pub changed_at: UtcInstant,
    /// Who made the change; `None` is the system.
    pub actor: Option<RecordId>,
}

impl View for RecordHistoryModel {
    type V = RecordHistoryView;

    open spec fn view(&self) -> RecordHistoryView {
        RecordHistoryView {
            id: opt_record_view(self.id),
            source: self.source@,
            field_name: self.field_name@,
            old_value: self.old_value@,
            new_value: self.new_value@,
            changed_at: self.changed_at@,
            actor: opt_record_view(self.actor),
        }
    }
}

/// Full-row shape of one concrete history table as loaded from storage.
#[derive(Debug, Clone, PartialEq, Eq)]
pub struct HistoryRowWire {
    /// Stored row id, when the store returned one.
    pub id: Option<RecordId>,
    pub source: RecordId,
    pub field_name: String,
    pub old_value: String,
    pub new_value: String,
    pub changed_at: UtcInstant,
    pub actor: Option<RecordId>,
}

/// The id a row loaded from `table` is reported under: a stored id on another
/// table is moved onto `table`, keeping its bare key.
pub open spec fn row_id_on_table(table: Seq<char>, id: Option<(Seq<char>, Seq<char>)>) -> Option<
    (Seq<char>, Seq<char>),
> {
    match id {
        Some(rid) => Some((table, rid.1)),
        None => None,
    }
}

/// The trait-model view of a wire row's audit fields, reported under `id`.
pub open spec fn model_view_with_id(row: HistoryRowWire, id: Option<(Seq<char>, Seq<char>)>) -> RecordHistoryView {
    RecordHistoryView {
        id,
        source: row.source@,
        field_name: row.field_name@,
        old_value: row.old_value@,
        new_value: row.new_value@,
        changed_at: row.changed_at@,
        actor: opt_record_view(row.actor),
    }
}

/// The trait-model view of a wire row read from `table`.
pub open spec fn model_view_of_wire(table: Seq<char>, row: HistoryRowWire) -> RecordHistoryView {
    model_view_with_id(row, row_id_on_table(table, opt_record_view(row.id)))
}

/// Force a loaded row id onto the table it was read from.
pub fn row_id_for_table(table: &str, id: &Option<RecordId>) -> (r: Option<RecordId>)
    ensures
        opt_record_view(r) == row_id_on_table(table@, opt_record_view(*id)),
{
    match id {
        Some(rid) => {
            if crate::text::same_text(rid.table(), table) {
                Some(rid.duplicate())
            } else {
                Some(RecordId::new(table, rid.id()))
            }
        },
        None => None,
    }
}

/// Map a concrete implementor row into the shared trait model under `id`.
pub fn trait_model_from(row: HistoryRowWire, id: Option<RecordId>) -> (m: RecordHistoryModel)
    ensures
        m@ == model_view_with_id(row, opt_record_view(id)),
{
    RecordHistoryModel {
        id,
        source: row.source,
        field_name: row.field_name,
        old_value: row.old_value,
        new_value: row.new_value,
        changed_at: row.changed_at,
        actor: row.actor,
    }
}

/// All rows one history table returned for a source, as trait models whose ids
/// name that table, in load order.
pub fn history_rows_for_table(table: &str, rows: Vec<HistoryRowWire>) -> (out: Vec<
    RecordHistoryModel,
>)
    ensures
        out@.len() == rows@.len(),
        forall|i: int|
            0 <= i < rows@.len() ==> #[trigger] out@[i]@ == model_view_of_wire(table@, rows@[i]),
{
    let mut out: Vec<RecordHistoryModel> = Vec::new();
    let ghost input = rows@;
    for row in it: rows
        invariant
            input == it.seq(),
            out@.len() == it.index(),
            forall|i: int|
                0 <= i < it.index() ==> #[trigger] out@[i]@ == model_view_of_wire(
                    table@,
                    input[i],
                ),
    {
        let ghost wire = row;
        let id = row_id_for_table(table, &row.id);
        let m = trait_model_from(row, id);
        assert(m@ == model_view_of_wire(table@, wire));
        out.push(m);
    }
    out
}

} // verus!
