//! A source-scoped history read as a sequence of decisions.
//!
//! The read authorizes the request actor against the parent record first:
//! the parent's table must be a registered `HistorySource` with a schema, the
//! parent row (loaded as System) must exist, and the actor must pass the
//! parent's Read policy. Only then does it load, table by table, every
//! registered `RecordHistory` implementor's rows for that source, mapping
//! them into [`RecordHistoryModel`] under the table they were read from.
//!
//! [`SourceRead`] holds the decisions; the caller performs each
//! [`SourceReadAction`] against the store and reports back a
//! [`SourceReadEvent`], until the action is `Finish`.

use vstd::prelude::*;

use crate::authorize::{
    authorize_parent_lookup, authorize_read_check, authorize_source_table, parent_lookup_outcome,
    read_check_outcome, source_table_outcome, ParentLookup, ReadCheck,
};
use crate::error::{HistoryAccessDeniedReason, HistoryError};
use crate::model::{history_rows_for_table, model_view_of_wire, HistoryRowWire, RecordHistoryModel};
use crate::page::texts_of;
use crate::record_id::RecordId;
use crate::text::listed;

verus! {

/// What the caller does next.
#[derive(Debug)]
pub enum SourceReadAction {
    /// Load this parent row with a System actor; report `ParentLoaded`.
    LoadParent(RecordId),
    /// Evaluate the request actor against the parent's Read policy; report
    /// `ReadChecked`.
    /// (The record is the parent.)
    CheckParentRead(RecordId),
    /// Load every row of this table whose `source` is this parent record;
    /// report `TableLoaded`.
    LoadTable(String, RecordId),
    /// The read is over, with all rows or the failure.
    Finish(Result<Vec<RecordHistoryModel>, HistoryError>),
}

/// What the caller observed.
#[derive(Debug)]
pub enum SourceReadEvent {
    /// Outcome of loading the parent as System.
    ParentLoaded(ParentLookup),
    /// Outcome of the Read-policy evaluation.
    ReadChecked(ReadCheck),
    /// The table's rows for the source, or the store's failure description.
    TableLoaded(Result<Vec<HistoryRowWire>, String>),
}

/// Where a read stands.
#[derive(Debug, Clone, Copy, PartialEq, Eq, Structural)]
pub enum SourceReadStage {
    /// Waiting for the parent load.
    AwaitParent,
    /// Waiting for the Read-policy evaluation.
    AwaitReadCheck,
    /// Waiting for the rows of the next table.
    AwaitTable,
    /// Finished.
    Done,
}

/// The state of one source-scoped history read.
pub struct SourceRead {
    stage: SourceReadStage,
    source: RecordId,
    tables: Vec<String>,
    next_table: usize,
    rows: Vec<RecordHistoryModel>,
    table_gate_passed: Ghost<bool>,
    parent_found: Ghost<bool>,
    read_allowed: Ghost<bool>,
}

/// The views of mapped rows.
pub open spec fn row_views(rows: Seq<RecordHistoryModel>) -> Seq<crate::model::RecordHistoryView> {
    rows.map_values(|m: RecordHistoryModel| m@)
}

/// The views of one table's wire rows mapped under that table.
pub open spec fn table_row_views(table: Seq<char>, rows: Seq<HistoryRowWire>) -> Seq<
    crate::model::RecordHistoryView,
> {
    rows.map_values(|w: HistoryRowWire| model_view_of_wire(table, w))
}

impl SourceRead {
    /// Where the read stands.
    pub closed spec fn stage(self) -> SourceReadStage {
        self.stage
    }

    /// The source (parent) record whose history is read.
    pub closed spec fn source(self) -> (Seq<char>, Seq<char>) {
        self.source@
    }

    /// The `RecordHistory` tables the read loads, in order.
    pub closed spec fn tables(self) -> Seq<Seq<char>> {
        texts_of(self.tables@)
    }

    /// How many tables have been loaded.
    pub closed spec fn next_table(self) -> int {
        self.next_table as int
    }

    /// The rows gathered so far.
    pub closed spec fn gathered(self) -> Seq<crate::model::RecordHistoryView> {
        row_views(self.rows@)
    }

    /// The parent's table passed the `HistorySource` / schema gate.
    pub closed spec fn table_gate_passed(self) -> bool {
        self.table_gate_passed@
    }

    /// The parent row was found.
    pub closed spec fn parent_found(self) -> bool {
        self.parent_found@
    }

    /// The request actor passed the parent's Read policy.
    pub closed spec fn read_allowed(self) -> bool {
        self.read_allowed@
    }

    /// The parent was fully authorized.
    pub open spec fn authorized(self) -> bool {
        self.table_gate_passed() && self.parent_found() && self.read_allowed()
    }

    /// The state is consistent: the gates passed in order before each stage,
    /// and table loading only runs after full authorization.
    pub closed spec fn wf(self) -> bool {
        &&& self.next_table <= self.tables@.len()
        &&& self.stage == SourceReadStage::AwaitParent ==> self.table_gate_passed@
            && !self.parent_found@ && !self.read_allowed@
        &&& self.stage == SourceReadStage::AwaitReadCheck ==> self.table_gate_passed@
            && self.parent_found@ && !self.read_allowed@
        &&& self.stage == SourceReadStage::AwaitTable ==> self.authorized() && self.next_table
            < self.tables@.len()
        &&& self.stage != SourceReadStage::AwaitTable && self.stage != SourceReadStage::Done
            ==> self.rows@.len() == 0 && self.next_table == 0
    }

    /// The event the read waits for in its current stage.
    pub open spec fn accepts(self, event: SourceReadEvent) -> bool {
        match self.stage() {
            SourceReadStage::AwaitParent => event is ParentLoaded,
            SourceReadStage::AwaitReadCheck => event is ReadChecked,
            SourceReadStage::AwaitTable => event is TableLoaded,
            SourceReadStage::Done => false,
        }
    }

    /// Start a read of `source`'s history. `history_source_tables` are the
    /// tables registered for `HistorySource`, `schema_registered` whether the
    /// source table has a schema, `record_history_tables` the tables
    /// registered for `RecordHistory`, in registry order.
    pub fn start(
        source: &RecordId,
        history_source_tables: &Vec<String>,
        schema_registered: bool,
        record_history_tables: Vec<String>,
    ) -> (r: (SourceRead, SourceReadAction))
        ensures
            r.0.wf(),
            r.0.source() == source@,
            r.0.tables() == texts_of(record_history_tables@),
            r.0.gathered().len() == 0,
            r.0.next_table() == 0,
            !r.0.parent_found() && !r.0.read_allowed(),
            match source_table_outcome(
                listed(history_source_tables@, source.table@),
                schema_registered,
            ) {
                Ok(()) => r.0.stage() == SourceReadStage::AwaitParent && (r.1 matches SourceReadAction::LoadParent(s) && s@ == source@)
                    && r.0.table_gate_passed(),
                Err(e) => r.0.stage() == SourceReadStage::Done && r.1 == SourceReadAction::Finish(
                    Err(e),
                ) && !r.0.table_gate_passed(),
            },
    {
        let gate = authorize_source_table(source, history_source_tables, schema_registered);
        let passed = gate.is_ok();
        let read = SourceRead {
            source: source.duplicate(),
            stage: if passed {
                SourceReadStage::AwaitParent
            } else {
                SourceReadStage::Done
            },
            tables: record_history_tables,
            next_table: 0,
            rows: Vec::new(),
            table_gate_passed: Ghost(passed),
            parent_found: Ghost(false),
            read_allowed: Ghost(false),
        };
        match gate {
            Ok(()) => (read, SourceReadAction::LoadParent(source.duplicate())),
            Err(e) => (read, SourceReadAction::Finish(Err(e))),
        }
    }

    /// Where the read stands.
    pub fn current_stage(&self) -> (r: SourceReadStage)
        ensures
            r == self.stage(),
    {
        self.stage
    }

    fn table_action(&self) -> (a: SourceReadAction)
        requires
            self.next_table < self.tables@.len(),
        ensures
            a matches SourceReadAction::LoadTable(t, s) && t@ == self.tables@[self.next_table as int]@
                && s@ == self.source@,
    {
        SourceReadAction::LoadTable(self.tables[self.next_table].clone(), self.source.duplicate())
    }

    fn finish_ok(&mut self) -> (a: SourceReadAction)
        ensures
            a matches SourceReadAction::Finish(Ok(rows)) && rows@ == old(self).rows@,
            final(self).rows@.len() == 0,
            final(self).stage == SourceReadStage::Done,
            final(self).tables == old(self).tables,
            final(self).source == old(self).source,
            final(self).next_table == old(self).next_table,
            final(self).table_gate_passed == old(self).table_gate_passed,
            final(self).parent_found == old(self).parent_found,
            final(self).read_allowed == old(self).read_allowed,
    {
        let mut out: Vec<RecordHistoryModel> = Vec::new();
        std::mem::swap(&mut out, &mut self.rows);
        self.stage = SourceReadStage::Done;
        SourceReadAction::Finish(Ok(out))
    }

    /// One step of the read: `after` and the action `a` are what the read
    /// becomes and answers when it takes `event` in this state.
    ///
    /// - Parent load: found → check the Read policy; missing → access denied;
    ///   failed → query error.
    /// - Read check: allowed → load the first table (or finish with no rows
    ///   when none is registered); denied → access denied; failed → query
    ///   error.
    /// - Table rows: appended, mapped under that table; then the next table,
    ///   or finish with every row gathered. A failed load finishes with a
    ///   query error.
    ///
    /// Whatever the event, the read stays consistent, keeps its tables and
    /// table gate, and finishes with rows only when the parent is authorized.
    pub open spec fn stepped(self, after: SourceRead, event: SourceReadEvent, a: SourceReadAction) -> bool {
        &&& after.wf()
        &&& after.tables() == self.tables()
        &&& after.source() == self.source()
        &&& after.table_gate_passed() == self.table_gate_passed()
        &&& a matches SourceReadAction::Finish(Ok(_)) ==> after.authorized()
        &&& match event {
            SourceReadEvent::ParentLoaded(lookup) => match parent_lookup_outcome(lookup) {
                Ok(()) => (a matches SourceReadAction::CheckParentRead(s) && s@ == self.source())
                    && after.stage() == SourceReadStage::AwaitReadCheck
                    && after.parent_found() && after.gathered().len() == 0,
                Err(e) => a == SourceReadAction::Finish(Err(e)) && after.stage()
                    == SourceReadStage::Done && !after.parent_found(),
            },
            SourceReadEvent::ReadChecked(check) => match read_check_outcome(check) {
                Ok(()) => after.read_allowed() && after.parent_found() && after.next_table() == 0
                    && if self.tables().len() == 0 {
                    a matches SourceReadAction::Finish(Ok(rows)) && rows@.len() == 0
                        && after.stage() == SourceReadStage::Done
                } else {
                    a matches SourceReadAction::LoadTable(t, s) && t@ == self.tables()[0] && s@
                        == self.source()
                        && after.stage() == SourceReadStage::AwaitTable
                },
                Err(e) => a == SourceReadAction::Finish(Err(e)) && after.stage()
                    == SourceReadStage::Done && !after.read_allowed(),
            },
            SourceReadEvent::TableLoaded(Err(e)) => a == SourceReadAction::Finish(
                Err(HistoryError::Query { source: e }),
            ) && after.stage() == SourceReadStage::Done,
            SourceReadEvent::TableLoaded(Ok(rows)) => {
                let table = self.tables()[self.next_table()];
                let all = self.gathered() + table_row_views(table, rows@);
                let next = self.next_table() + 1;
                &&& after.next_table() == next
                &&& if next < self.tables().len() {
                    &&& a matches SourceReadAction::LoadTable(t, s) && t@ == self.tables()[next]
                        && s@ == self.source()
                    &&& after.stage() == SourceReadStage::AwaitTable
                    &&& after.gathered() == all
                } else {
                    &&& a matches SourceReadAction::Finish(Ok(out)) && row_views(out@) == all
                    &&& after.stage() == SourceReadStage::Done
                }
            },
        }
    }

    /// Take the caller's report and decide the next action (see
    /// [`SourceRead::stepped`]).
    pub fn step(&mut self, event: SourceReadEvent) -> (a: SourceReadAction)
        requires
            old(self).wf(),
            old(self).accepts(event),
        ensures
            old(self).stepped(*final(self), event, a),
    {
        match event {
            SourceReadEvent::ParentLoaded(lookup) => match authorize_parent_lookup(lookup) {
                Ok(()) => {
                    self.parent_found = Ghost(true);
                    self.stage = SourceReadStage::AwaitReadCheck;
                    SourceReadAction::CheckParentRead(self.source.duplicate())
                },
                Err(e) => {
                    self.stage = SourceReadStage::Done;
                    SourceReadAction::Finish(Err(e))
                },
            },
            SourceReadEvent::ReadChecked(check) => match authorize_read_check(check) {
                Ok(()) => {
                    self.read_allowed = Ghost(true);
                    if self.tables.len() == 0 {
                        self.finish_ok()
                    } else {
                        self.stage = SourceReadStage::AwaitTable;
                        self.table_action()
                    }
                },
                Err(e) => {
                    self.stage = SourceReadStage::Done;
                    SourceReadAction::Finish(Err(e))
                },
            },
            SourceReadEvent::TableLoaded(Err(e)) => {
                self.stage = SourceReadStage::Done;
                SourceReadAction::Finish(Err(HistoryError::query(e)))
            },
            SourceReadEvent::TableLoaded(Ok(rows)) => {
                let k = self.next_table;
                let n = self.tables.len();
                assert(k < n);
                let ghost before = row_views(self.rows@);
                let ghost wire = rows@;
                let ghost table = self.tables@[self.next_table as int]@;
                let mapped = history_rows_for_table(self.tables[self.next_table].as_str(), rows);
                let mut mapped = mapped;
                let ghost mapped_rows = mapped@;
                self.rows.append(&mut mapped);
                proof {
                    assert(row_views(self.rows@) =~= before + table_row_views(table, wire)) by {
                        assert(self.rows@.len() == before.len() + mapped_rows.len());
                        assert forall|i: int| 0 <= i < self.rows@.len() implies #[trigger] row_views(
                            self.rows@,
                        )[i] == (before + table_row_views(table, wire))[i] by {
                            if i >= before.len() {
                                assert(self.rows@[i] == mapped_rows[i - before.len()]);
                            }
                        }
                    }
                }
                self.next_table = k + 1;
                if self.next_table < self.tables.len() {
                    self.table_action()
                } else {
                    self.finish_ok()
                }
            },
        }
    }
}

/// Rows are only loaded for an authorized parent: whenever a consistent read
/// waits for a table's rows, the parent's table passed the `HistorySource`
/// gate, the parent row was found, and the actor passed its Read policy.
/// (With [`SourceRead::step`], which finishes with rows only from an
/// authorized state, no read yields rows without authorization.)
pub proof fn law_rows_loaded_only_after_authorization(read: SourceRead)
    requires
        read.wf(),
        read.stage() == SourceReadStage::AwaitTable,
    ensures
        read.authorized(),
{
}

/// The parent's Read policy decides a read once the parent row is found: a
/// privacy denial ends it as an access denial, with no rows; an allowance
/// leaves the parent fully authorized and goes on to the first history
/// table, or ends with no rows when none is registered. Which actors the
/// policy admits is the store's answer.
pub proof fn law_read_policy_decides(
    read: SourceRead,
    check: ReadCheck,
    after: SourceRead,
    a: SourceReadAction,
)
    requires
        read.wf(),
        read.stage() == SourceReadStage::AwaitReadCheck,
        read.stepped(after, SourceReadEvent::ReadChecked(check), a),
    ensures
        check == ReadCheck::PrivacyDenied ==> a == SourceReadAction::Finish(
            Err(HistoryError::AccessDenied { reason: HistoryAccessDeniedReason::ParentReadDenied }),
        ) && !after.authorized(),
        check == ReadCheck::Allowed ==> after.authorized() && (a is LoadTable || (
        a matches SourceReadAction::Finish(Ok(rows)) && rows@.len() == 0)),
{
}

} // verus!
