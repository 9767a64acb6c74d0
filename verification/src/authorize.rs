//! Fail-closed parent Read check before history is paged.
//!
//! Authorizing a history read takes three outside steps, each answered here:
//! the parent's table must be a registered `HistorySource` implementor with a
//! schema; the parent row, loaded as System, must exist; and the request actor
//! must pass the parent table's Read policy on that row. Session presence is
//! not enough. Missing rows, unsupported tables and Read denials all become
//! [`HistoryError::AccessDenied`]; store failures become
//! [`HistoryError::Query`].

use vstd::prelude::*;

use crate::error::{HistoryAccessDeniedReason, HistoryError};
use crate::record_id::RecordId;
use crate::text::{listed, text_in_list};

verus! {

/// Outcome of loading the parent row as System.
#[derive(Debug, Clone, PartialEq, Eq)]
pub enum ParentLookup {
    /// The row exists.
    Found,
    /// No row has that id.
    Missing,
    /// The load failed; the store's description of the failure.
    Failed(String),
}

/// Outcome of evaluating the request actor against the parent's Read policy.
#[derive(Debug, Clone, PartialEq, Eq)]
pub enum ReadCheck {
    /// The actor may read the parent.
    Allowed,
    /// The privacy policy denied the read.
    PrivacyDenied,
    /// Evaluation failed for another reason; its description.
    Failed(String),
}

/// The answer of the table gate.
pub open spec fn source_table_outcome(
    table_is_history_source: bool,
    schema_registered: bool,
) -> Result<(), HistoryError> {
    if table_is_history_source && schema_registered {
        Ok(())
    } else {
        Err(HistoryError::AccessDenied { reason: HistoryAccessDeniedReason::UnsupportedSource })
    }
}

/// The answer of the parent-row gate.
pub open spec fn parent_lookup_outcome(lookup: ParentLookup) -> Result<(), HistoryError> {
    match lookup {
        ParentLookup::Found => Ok(()),
        ParentLookup::Missing => Err(
            HistoryError::AccessDenied { reason: HistoryAccessDeniedReason::MissingSource },
        ),
        ParentLookup::Failed(e) => Err(HistoryError::Query { source: e }),
    }
}

/// The answer of the Read-policy gate.
pub open spec fn read_check_outcome(check: ReadCheck) -> Result<(), HistoryError> {
    match check {
        ReadCheck::Allowed => Ok(()),
        ReadCheck::PrivacyDenied => Err(
            HistoryError::AccessDenied { reason: HistoryAccessDeniedReason::ParentReadDenied },
        ),
        ReadCheck::Failed(e) => Err(HistoryError::Query { source: e }),
    }
}

/// The whole authorization, gate after gate: the first gate that refuses
/// decides; later outside steps are not taken after a refusal.
pub open spec fn authorization_outcome(
    table_is_history_source: bool,
    schema_registered: bool,
    lookup: ParentLookup,
    check: ReadCheck,
) -> Result<(), HistoryError> {
    match source_table_outcome(table_is_history_source, schema_registered) {
        Err(e) => Err(e),
        Ok(()) => match parent_lookup_outcome(lookup) {
            Err(e) => Err(e),
            Ok(()) => read_check_outcome(check),
        },
    }
}

/// Gate 1: the source's table must be one of the registered `HistorySource`
/// tables and have a registered schema.
pub fn authorize_source_table(
    source: &RecordId,
    history_source_tables: &Vec<String>,
    schema_registered: bool,
) -> (r: Result<(), HistoryError>)
    ensures
        r == source_table_outcome(
            listed(history_source_tables@, source.table@),
            schema_registered,
        ),
{
    if !text_in_list(history_source_tables, source.table()) {
        return Err(HistoryError::access_denied(HistoryAccessDeniedReason::UnsupportedSource));
    }
    if !schema_registered {
        return Err(HistoryError::access_denied(HistoryAccessDeniedReason::UnsupportedSource));
    }
    Ok(())
}

/// Gate 2: the parent row, loaded as System, must exist.
pub fn authorize_parent_lookup(lookup: ParentLookup) -> (r: Result<(), HistoryError>)
    ensures
        r == parent_lookup_outcome(lookup),
{
    match lookup {
        ParentLookup::Found => Ok(()),
        ParentLookup::Missing => Err(
            HistoryError::access_denied(HistoryAccessDeniedReason::MissingSource),
        ),
        ParentLookup::Failed(e) => Err(HistoryError::query(e)),
    }
}

/// Gate 3: the request actor must pass the parent's Read policy.
pub fn authorize_read_check(check: ReadCheck) -> (r: Result<(), HistoryError>)
    ensures
        r == read_check_outcome(check),
{
    match check {
        ReadCheck::Allowed => Ok(()),
        ReadCheck::PrivacyDenied => Err(
            HistoryError::access_denied(HistoryAccessDeniedReason::ParentReadDenied),
        ),
        ReadCheck::Failed(e) => Err(HistoryError::query(e)),
    }
}

/// What the caller of an [`Authorization`] does next.
#[derive(Debug)]
pub enum AuthorizationAction {
    /// Load this parent row with a System actor; report `ParentLoaded`.
    LoadParent(RecordId),
    /// Evaluate the request actor against this parent's Read policy; report
    /// `ReadChecked`.
    CheckParentRead(RecordId),
    /// Authorization is decided.
    Finish(Result<(), HistoryError>),
}

/// What the caller of an [`Authorization`] observed.
#[derive(Debug)]
pub enum AuthorizationEvent {
    /// Outcome of loading the parent as System.
    ParentLoaded(ParentLookup),
    /// Outcome of the Read-policy evaluation.
    ReadChecked(ReadCheck),
}

/// Where an authorization stands.
#[derive(Debug, Clone, Copy, PartialEq, Eq, Structural)]
pub enum AuthorizationStage {
    /// Waiting for the parent load.
    AwaitParent,
    /// Waiting for the Read-policy evaluation.
    AwaitReadCheck,
    /// Decided.
    Done,
}

/// The authorization of a history read against its source (parent) record,
/// gate after gate; the caller performs the two outside steps.
pub struct Authorization {
    stage: AuthorizationStage,
    source: RecordId,
    table_is_history_source: Ghost<bool>,
    schema_registered: Ghost<bool>,
    lookup: Ghost<ParentLookup>,
}

impl Authorization {
    /// Where the authorization stands.
    pub closed spec fn stage(self) -> AuthorizationStage {
        self.stage
    }

    /// The source (parent) record being authorized.
    pub closed spec fn source(self) -> (Seq<char>, Seq<char>) {
        self.source@
    }

    /// The source's table is a registered `HistorySource` table.
    pub closed spec fn table_is_history_source(self) -> bool {
        self.table_is_history_source@
    }

    /// The source's table has a registered schema.
    pub closed spec fn schema_registered(self) -> bool {
        self.schema_registered@
    }

    /// The parent load's outcome, once reported.
    pub closed spec fn lookup(self) -> ParentLookup {
        self.lookup@
    }

    /// The state is consistent: each stage is reached only past the gates
    /// before it.
    pub closed spec fn wf(self) -> bool {
        &&& self.stage != AuthorizationStage::Done ==> self.table_is_history_source@
            && self.schema_registered@
        &&& self.stage == AuthorizationStage::AwaitReadCheck ==> self.lookup@ == ParentLookup::Found
    }

    /// The event the authorization waits for in its current stage.
    pub open spec fn accepts(self, event: AuthorizationEvent) -> bool {
        match self.stage() {
            AuthorizationStage::AwaitParent => event is ParentLoaded,
            AuthorizationStage::AwaitReadCheck => event is ReadChecked,
            AuthorizationStage::Done => false,
        }
    }

    /// Start authorizing a read of `source`'s history: the table gate is
    /// decided at once; then the parent row is loaded.
    pub fn start(
        source: &RecordId,
        history_source_tables: &Vec<String>,
        schema_registered: bool,
    ) -> (r: (Authorization, AuthorizationAction))
        ensures
            r.0.wf(),
            r.0.source() == source@,
            r.0.table_is_history_source() == listed(history_source_tables@, source.table@),
            r.0.schema_registered() == schema_registered,
            match source_table_outcome(
                listed(history_source_tables@, source.table@),
                schema_registered,
            ) {
                Ok(()) => (r.1 matches AuthorizationAction::LoadParent(s) && s@ == source@)
                    && r.0.stage() == AuthorizationStage::AwaitParent,
                Err(e) => r.1 == AuthorizationAction::Finish(Err(e)) && r.0.stage()
                    == AuthorizationStage::Done,
            },
            r.1 matches AuthorizationAction::Finish(res) ==> forall|l: ParentLookup, c: ReadCheck|
                res == #[trigger] authorization_outcome(
                    listed(history_source_tables@, source.table@),
                    schema_registered,
                    l,
                    c,
                ),
    {
        let gate = authorize_source_table(source, history_source_tables, schema_registered);
        let ghost listed_table = listed(history_source_tables@, source.table@);
        let passed = gate.is_ok();
        let auth = Authorization {
            stage: if passed {
                AuthorizationStage::AwaitParent
            } else {
                AuthorizationStage::Done
            },
            source: source.duplicate(),
            table_is_history_source: Ghost(listed_table),
            schema_registered: Ghost(schema_registered),
            lookup: Ghost(ParentLookup::Missing),
        };
        match gate {
            Ok(()) => (auth, AuthorizationAction::LoadParent(source.duplicate())),
            Err(e) => (auth, AuthorizationAction::Finish(Err(e))),
        }
    }

    /// Where the authorization stands.
    pub fn current_stage(&self) -> (r: AuthorizationStage)
        ensures
            r == self.stage(),
    {
        self.stage
    }

    /// Take the caller's report and decide the next action. Whenever the
    /// authorization finishes, its answer is [`authorization_outcome`] of the
    /// gate inputs and the reported outcomes (for a refusal at the parent
    /// load, whatever the Read check would have said).
    pub fn step(&mut self, event: AuthorizationEvent) -> (a: AuthorizationAction)
        requires
            old(self).wf(),
            old(self).accepts(event),
        ensures
            final(self).wf(),
            final(self).source() == old(self).source(),
            final(self).table_is_history_source() == old(self).table_is_history_source(),
            final(self).schema_registered() == old(self).schema_registered(),
            match event {
                AuthorizationEvent::ParentLoaded(l) => {
                    &&& final(self).lookup() == l
                    &&& match parent_lookup_outcome(l) {
                        Ok(()) => (a matches AuthorizationAction::CheckParentRead(s) && s@ == old(
                            self,
                        ).source()) && final(self).stage() == AuthorizationStage::AwaitReadCheck,
                        Err(e) => a == AuthorizationAction::Finish(Err(e)) && final(self).stage()
                            == AuthorizationStage::Done,
                    }
                    &&& a matches AuthorizationAction::Finish(res) ==> forall|c: ReadCheck|
                        res == #[trigger] authorization_outcome(
                            old(self).table_is_history_source(),
                            old(self).schema_registered(),
                            l,
                            c,
                        )
                },
                AuthorizationEvent::ReadChecked(c) => a == AuthorizationAction::Finish(
                    authorization_outcome(
                        old(self).table_is_history_source(),
                        old(self).schema_registered(),
                        old(self).lookup(),
                        c,
                    ),
                ) && final(self).stage() == AuthorizationStage::Done,
            },
    {
        match event {
            AuthorizationEvent::ParentLoaded(l) => {
                let ghost seen = l;
                self.lookup = Ghost(seen);
                match authorize_parent_lookup(l) {
                    Ok(()) => {
                        self.stage = AuthorizationStage::AwaitReadCheck;
                        AuthorizationAction::CheckParentRead(self.source.duplicate())
                    },
                    Err(e) => {
                        self.stage = AuthorizationStage::Done;
                        AuthorizationAction::Finish(Err(e))
                    },
                }
            },
            AuthorizationEvent::ReadChecked(c) => {
                self.stage = AuthorizationStage::Done;
                AuthorizationAction::Finish(authorize_read_check(c))
            },
        }
    }
}

} // verus!
