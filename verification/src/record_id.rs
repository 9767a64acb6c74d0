//! Record identifiers (`table:id`) and the history-row identity split.

use vstd::prelude::*;

verus! {

/// A record reference: the table the row lives in and its bare primary key.
#[derive(Debug, Clone, PartialEq, Eq, Hash)]
pub struct RecordId {
    /// Table name (`tag_history`, `e2e_history_source_a`, …).
    pub table: String,
    /// Bare primary key within `table`.
    pub id: String,
}

impl View for RecordId {
    type V = (Seq<char>, Seq<char>);

    open spec fn view(&self) -> (Seq<char>, Seq<char>) {
        (self.table@, self.id@)
    }
}

impl RecordId {
    /// A reference to row `id` of `table`.
    pub fn new(table: &str, id: &str) -> (r: RecordId)
        ensures
            r@ == (table@, id@),
    {
        RecordId { table: table.to_owned(), id: id.to_owned() }
    }

    /// The table name.
    pub fn table(&self) -> (r: &str)
        ensures
            r@ == self.table@,
    {
        self.table.as_str()
    }

    /// The bare primary key.
    pub fn id(&self) -> (r: &str)
        ensures
            r@ == self.id@,
    {
        self.id.as_str()
    }

    /// A copy of this reference with the same table and key.
    pub fn duplicate(&self) -> (r: RecordId)
        ensures
            r@ == self@,
    {
        RecordId { table: self.table.clone(), id: self.id.clone() }
    }
}

/// Concrete table name and bare PK for a history row (`kind`, `row_id`).
pub fn history_row_identity(id: &RecordId) -> (r: (&str, &str))
    ensures
        r.0@ == id.table@,
        r.1@ == id.id@,
{
    (id.table(), id.id())
}

} // verus!
