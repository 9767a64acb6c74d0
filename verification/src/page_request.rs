//! A timeline page request as a sequence of decisions.
//!
//! A request needs a session and the request's store. It then runs the
//! authorized, source-scoped history read of [`crate::source_read`] (parent
//! authorization first), plans the page from the client's arguments, maps the
//! page rows into the page DTO in order (a row without an actor is a System
//! change, shown as "System" without a link; every other actor is resolved
//! one by one with the request's own session), and assembles the page. Access denials answer with the access-denied
//! message; every other failure is collapsed to the load-failure message.
//! A page is only ever answered with a session and an authorized parent.
//!
//! [`PageRequest`] holds the decisions; the caller performs each
//! [`PageRequestAction`] and reports a [`PageRequestEvent`] until the action
//! is `Finish`.

use vstd::prelude::*;

use crate::actor::{system_actor_presentation, SYSTEM_ACTOR_LABEL};
use crate::authorize::source_table_outcome;
use crate::model::RecordHistoryModel;
use crate::page::{
    assemble_history_page, clamped_limit, clamped_offset, client_err, is_assembled_page,
    listed_history, opt_texts, page_error_for, page_error_of, plan_history_page, require_session,
    window, HistoryPageError, HistoryPageWindow, Page,
};
use crate::record_id::RecordId;
use crate::row_view::{into_history_row_view, opt_text, row_view_of, HistoryRowView};
use crate::source_read::{SourceRead, SourceReadAction, SourceReadEvent, SourceReadStage};
use crate::text::listed;

verus! {

/// What the caller does next.
#[derive(Debug)]
pub enum PageRequestAction {
    /// Load this source (parent) row with a System actor; report
    /// `Read(ParentLoaded)`.
    LoadParent(RecordId),
    /// Evaluate the request actor against this parent's Read policy; report
    /// `Read(ReadChecked)`.
    CheckParentRead(RecordId),
    /// Load this history table's rows for this source; report
    /// `Read(TableLoaded)`.
    LoadTable(String, RecordId),
    /// Resolve this user actor's label and profile link with the request
    /// session; report `ActorResolved`.
    ResolveActor(RecordId),
    /// The request is answered.
    Finish(Result<Page<HistoryRowView>, HistoryPageError>),
}

/// What the caller observed.
#[derive(Debug)]
pub enum PageRequestEvent {
    /// Outcome of a step of the source-scoped history read.
    Read(SourceReadEvent),
    /// The actor's label and link, or `None` when resolution failed.
    ActorResolved(Option<(String, Option<String>)>),
}

/// Where a request stands.
#[derive(Debug, Clone, Copy, PartialEq, Eq, Structural)]
pub enum PageRequestStage {
    /// Reading the source's history.
    AwaitRead,
    /// Waiting for the actor of the next page row.
    AwaitActor,
    /// Answered.
    Done,
}

/// The state of one page request.
pub struct PageRequest {
    stage: PageRequestStage,
    offset: u32,
    limit: u32,
    kinds: Option<Vec<String>>,
    read: Option<SourceRead>,
    window: Option<HistoryPageWindow>,
    pending: Vec<RecordHistoryModel>,
    views: Vec<HistoryRowView>,
    mapped: Ghost<Seq<HistoryRowView>>,
    session_present: Ghost<bool>,
}

/// A row the request maps by itself: it has an id and no actor (a System
/// change).
pub open spec fn is_system_row(row: RecordHistoryModel) -> bool {
    row.id is Some && row.actor is None
}

/// How many of the leading rows are System rows.
pub open spec fn system_run(rows: Seq<RecordHistoryModel>) -> nat
    decreases rows.len(),
{
    if rows.len() > 0 && is_system_row(rows[0]) {
        1 + system_run(rows.drop_first())
    } else {
        0
    }
}

proof fn lemma_system_run(rows: Seq<RecordHistoryModel>)
    ensures
        system_run(rows) <= rows.len(),
        forall|i: int| 0 <= i < system_run(rows) ==> is_system_row(#[trigger] rows[i]),
        system_run(rows) < rows.len() ==> !is_system_row(rows[system_run(rows) as int]),
    decreases rows.len(),
{
    if rows.len() > 0 && is_system_row(rows[0]) {
        let tail = rows.drop_first();
        lemma_system_run(tail);
        assert forall|i: int| 0 <= i < system_run(rows) implies is_system_row(#[trigger] rows[i]) by {
            if i > 0 {
                assert(rows[i] == tail[i - 1]);
            }
        }
        if system_run(rows) < rows.len() {
            assert(rows[system_run(rows) as int] == tail[system_run(tail) as int]);
        }
    }
}

/// The user actor of a row that has one, duplicated.
fn actor_of_row(row: &RecordHistoryModel) -> (r: RecordId)
    requires
        row.actor is Some,
    ensures
        r@ == row.actor->0@,
{
    match &row.actor {
        Some(a) => a.duplicate(),
        None => RecordId::new("", ""),
    }
}

impl PageRequest {
    /// Where the request stands.
    pub closed spec fn stage(self) -> PageRequestStage {
        self.stage
    }

    /// The client's raw offset.
    pub closed spec fn requested_offset(self) -> u32 {
        self.offset
    }

    /// The client's raw page size.
    pub closed spec fn requested_limit(self) -> u32 {
        self.limit
    }

    /// The client's raw kind filter (until the rows are read).
    pub closed spec fn requested_kinds(self) -> Option<Seq<Seq<char>>> {
        opt_texts(self.kinds)
    }

    /// The source-scoped history read, once started.
    pub closed spec fn reading(self) -> Option<SourceRead> {
        self.read
    }

    /// The planned window, once the history is read.
    pub closed spec fn planned(self) -> Option<HistoryPageWindow> {
        self.window
    }

    /// Page rows not yet mapped, in page order (the first awaits its actor).
    pub closed spec fn pending(self) -> Seq<RecordHistoryModel> {
        self.pending@
    }

    /// Page rows already mapped, in page order (kept once the page is
    /// answered).
    pub closed spec fn views(self) -> Seq<HistoryRowView> {
        self.mapped@
    }

    /// A session was present.
    pub closed spec fn session_present(self) -> bool {
        self.session_present@
    }

    /// The source's parent passed every authorization gate.
    pub open spec fn parent_authorized(self) -> bool {
        self.reading() matches Some(read) && read.authorized()
    }

    /// The state is consistent.
    pub closed spec fn wf(self) -> bool {
        &&& self.stage == PageRequestStage::AwaitRead ==> {
            &&& self.session_present@
            &&& self.read matches Some(read) && read.wf() && read.stage()
                != SourceReadStage::Done
            &&& self.window is None
            &&& self.mapped@.len() == 0
        }
        &&& self.stage == PageRequestStage::AwaitActor ==> {
            &&& self.session_present@
            &&& self.parent_authorized()
            &&& self.window is Some
            &&& self.pending@.len() > 0
            &&& self.pending@[0].id is Some
        }
        &&& self.stage != PageRequestStage::Done ==> self.views@ == self.mapped@
    }

    /// The event the request waits for in its current stage.
    pub open spec fn accepts(self, event: PageRequestEvent) -> bool {
        match self.stage() {
            PageRequestStage::AwaitRead => event matches PageRequestEvent::Read(e)
                && self.reading()->0.accepts(e),
            PageRequestStage::AwaitActor => event is ActorResolved,
            PageRequestStage::Done => false,
        }
    }

    /// The request after it went on from mapped rows `before` with the page
    /// rows `rows` still to map: the leading System rows are mapped at once
    /// (label "System", no link); then, with no row left, the assembled page
    /// is the answer; a next row without an id answers the load failure;
    /// else that row's user actor is resolved next.
    pub open spec fn continues_with(
        self,
        a: PageRequestAction,
        window: HistoryPageWindow,
        before: Seq<HistoryRowView>,
        rows: Seq<RecordHistoryModel>,
    ) -> bool {
        let k = system_run(rows);
        let rest = rows.skip(k as int);
        &&& self.views().len() == before.len() + k
        &&& self.views().take(before.len() as int) == before
        &&& forall|i: int|
            0 <= i < k ==> self.views()[before.len() + i]@ == row_view_of(
                #[trigger] rows[i],
                SYSTEM_ACTOR_LABEL@,
                None,
            )
        &&& if rest.len() == 0 {
            &&& a matches PageRequestAction::Finish(Ok(page)) && is_assembled_page(
                window,
                self.views(),
                page,
            )
            &&& self.stage() == PageRequestStage::Done
        } else if rest[0].id is None {
            &&& a == PageRequestAction::Finish(Err(HistoryPageError::LoadFailed))
            &&& self.stage() == PageRequestStage::Done
        } else {
            &&& a matches PageRequestAction::ResolveActor(actor) && rest[0].actor is Some
                && actor@ == rest[0].actor->0@
            &&& self.pending() == rest
            &&& self.stage() == PageRequestStage::AwaitActor
        }
    }

    /// How the request (in state `self`, after the step) answers with `a`
    /// when the history read it started from `before` answered `read_answer`:
    /// a read step is passed on; a failed read answers its page error; the
    /// rows of a finished read are planned into a page (from the client's
    /// arguments as `before` holds them) whose rows are then mapped in order.
    pub open spec fn follows_read(
        self,
        before: PageRequest,
        read_answer: SourceReadAction,
        a: PageRequestAction,
    ) -> bool {
        match read_answer {
            SourceReadAction::LoadParent(s) => a matches PageRequestAction::LoadParent(u) && u@
                == s@ && self.stage() == PageRequestStage::AwaitRead,
            SourceReadAction::CheckParentRead(s) => a matches PageRequestAction::CheckParentRead(
                u,
            ) && u@ == s@ && self.stage() == PageRequestStage::AwaitRead,
            SourceReadAction::LoadTable(t, s) => a matches PageRequestAction::LoadTable(u, v) && u@
                == t@ && v@ == s@ && self.stage() == PageRequestStage::AwaitRead,
            SourceReadAction::Finish(Err(e)) => a == PageRequestAction::Finish(
                Err(page_error_of(e)),
            ) && self.stage() == PageRequestStage::Done,
            SourceReadAction::Finish(Ok(rows)) => {
                let w = self.planned()->0;
                let page_rows = window(
                    listed_history(rows@, before.requested_kinds()),
                    clamped_offset(before.requested_offset() as int),
                    clamped_limit(before.requested_limit() as int) + 1,
                );
                &&& self.planned() is Some
                &&& w.spec_offset() == clamped_offset(before.requested_offset() as int)
                &&& w.spec_limit() == clamped_limit(before.requested_limit() as int)
                &&& w.spec_total_rows() == listed_history(rows@, before.requested_kinds()).len()
                &&& w.spec_fetched() == page_rows.len()
                &&& self.continues_with(a, w, Seq::empty(), page_rows)
            },
        }
    }

    /// Start a request for `source`'s page at `offset` / `limit` narrowed to
    /// `kinds`. Without a session it is refused; while the harness load fault
    /// is armed, or when the request's store cannot be had (`store_ready`
    /// false), it fails; else the source-scoped history read starts
    /// (`history_source_tables`, `schema_registered` and
    /// `record_history_tables` as for [`SourceRead::start`]): a source table
    /// that is not a registered history source is denied at once, else the
    /// parent row is loaded next.
    pub fn start(
        session_user_id: &Option<String>,
        load_fault_armed: bool,
        store_ready: bool,
        offset: u32,
        limit: u32,
        kinds: Option<Vec<String>>,
        source: &RecordId,
        history_source_tables: &Vec<String>,
        schema_registered: bool,
        record_history_tables: Vec<String>,
    ) -> (r: (PageRequest, PageRequestAction))
        ensures
            r.0.wf(),
            r.0.requested_offset() == offset,
            r.0.requested_limit() == limit,
            r.0.requested_kinds() == opt_texts(kinds),
            r.0.session_present() == session_user_id.is_some(),
            r.0.views().len() == 0,
            session_user_id is None ==> r.1 == PageRequestAction::Finish(
                Err(HistoryPageError::AuthenticationRequired),
            ) && r.0.stage() == PageRequestStage::Done,
            session_user_id is Some && load_fault_armed ==> r.1 == PageRequestAction::Finish(
                Err(HistoryPageError::LoadFailed),
            ) && r.0.stage() == PageRequestStage::Done,
            session_user_id is Some && !load_fault_armed && !store_ready ==> r.1
                == PageRequestAction::Finish(Err(HistoryPageError::LoadFailed)) && r.0.stage()
                == PageRequestStage::Done,
            session_user_id is Some && !load_fault_armed && store_ready ==> match source_table_outcome(
                listed(history_source_tables@, source.table@),
                schema_registered,
            ) {
                Ok(()) => {
                    &&& r.1 matches PageRequestAction::LoadParent(s) && s@ == source@
                    &&& r.0.stage() == PageRequestStage::AwaitRead
                    &&& r.0.reading() matches Some(read) && read.stage()
                        == SourceReadStage::AwaitParent && read.source() == source@
                        && read.table_gate_passed()
                        && !read.parent_found() && !read.read_allowed() && read.tables()
                        == crate::page::texts_of(record_history_tables@)
                        && read.gathered().len() == 0 && read.next_table() == 0
                },
                Err(e) => r.1 == PageRequestAction::Finish(Err(page_error_of(e))) && r.0.stage()
                    == PageRequestStage::Done,
            },
    {
        let session = require_session(session_user_id);
        let present = session.is_ok();
        let mut req = PageRequest {
            stage: PageRequestStage::Done,
            offset,
            limit,
            kinds,
            read: None,
            window: None,
            pending: Vec::new(),
            views: Vec::new(),
            mapped: Ghost(Seq::empty()),
            session_present: Ghost(present),
        };
        match session {
            Err(e) => (req, PageRequestAction::Finish(Err(e))),
            Ok(()) => {
                if load_fault_armed || !store_ready {
                    (req, PageRequestAction::Finish(Err(client_err())))
                } else {
                    let (read, first) = SourceRead::start(
                        source,
                        history_source_tables,
                        schema_registered,
                        record_history_tables,
                    );
                    req.read = Some(read);
                    match first {
                        SourceReadAction::Finish(Err(e)) => {
                            (req, PageRequestAction::Finish(Err(page_error_for(&e))))
                        },
                        _ => {
                            req.stage = PageRequestStage::AwaitRead;
                            (req, PageRequestAction::LoadParent(source.duplicate()))
                        },
                    }
                }
            },
        }
    }

    /// Where the request stands.
    pub fn current_stage(&self) -> (r: PageRequestStage)
        ensures
            r == self.stage(),
    {
        self.stage
    }

    /// Does the next page row need no actor resolution (a System row)?
    fn next_is_system(&self) -> (b: bool)
        ensures
            b == (self.pending@.len() > 0 && is_system_row(self.pending@[0])),
    {
        self.pending.len() > 0 && self.pending[0].id.is_some() && self.pending[0].actor.is_none()
    }

    /// Go on with the rows in `pending`: map the leading System rows, then
    /// answer the page, fail on a row without an id, or resolve the next
    /// row's actor.
    fn continue_rows(&mut self) -> (a: PageRequestAction)
        requires
            old(self).window is Some,
            old(self).session_present@,
            old(self).parent_authorized(),
            old(self).views@ == old(self).mapped@,
        ensures
            final(self).continues_with(
                a,
                old(self).window->0,
                old(self).mapped@,
                old(self).pending@,
            ),
            final(self).wf(),
            final(self).window == old(self).window,
            final(self).read == old(self).read,
            final(self).session_present == old(self).session_present,
    {
        let ghost rows = self.pending@;
        let ghost before = self.mapped@;
        proof {
            lemma_system_run(rows);
        }
        let ghost k = system_run(rows) as int;
        let ghost mut j: int = 0;
        while self.next_is_system()
            invariant
                0 <= j <= k,
                k <= rows.len(),
                forall|i: int| 0 <= i < k ==> is_system_row(#[trigger] rows[i]),
                k < rows.len() ==> !is_system_row(rows[k]),
                self.pending@ == rows.skip(j),
                self.views@ == self.mapped@,
                self.mapped@.len() == before.len() + j,
                self.mapped@.take(before.len() as int) == before,
                forall|i: int|
                    0 <= i < j ==> self.mapped@[before.len() + i]@ == row_view_of(
                        #[trigger] rows[i],
                        SYSTEM_ACTOR_LABEL@,
                        None,
                    ),
                self.window == old(self).window,
                self.read == old(self).read,
                self.session_present == old(self).session_present,
                self.window is Some,
                self.session_present@,
                self.parent_authorized(),
            decreases self.pending@.len(),
        {
            proof {
                assert(rows.skip(j)[0] == rows[j]);
            }
            let ghost mapped_before = self.mapped@;
            let row = self.pending.remove(0);
            let (label, href) = system_actor_presentation();
            match into_history_row_view(row, label, href) {
                Some(view) => {
                    self.views.push(view);
                    self.mapped = Ghost(self.views@);
                },
                None => {},
            }
            proof {
                assert(self.pending@ =~= rows.skip(j + 1));
                assert(self.mapped@.take(before.len() as int) =~= before) by {
                    assert(mapped_before.take(before.len() as int) == before);
                }
                assert forall|i: int| 0 <= i < j + 1 implies self.mapped@[before.len() + i]@
                    == row_view_of(#[trigger] rows[i], SYSTEM_ACTOR_LABEL@, None) by {
                    if i < j {
                        assert(self.mapped@[before.len() + i] == mapped_before[before.len() + i]);
                    }
                }
                j = j + 1;
            }
        }
        proof {
            if j < k {
                assert(rows.skip(j)[0] == rows[j]);
            }
            assert(j == k);
        }
        if self.pending.len() == 0 {
            let mut views: Vec<HistoryRowView> = Vec::new();
            std::mem::swap(&mut views, &mut self.views);
            self.stage = PageRequestStage::Done;
            match &self.window {
                Some(w) => PageRequestAction::Finish(Ok(assemble_history_page(w, views))),
                None => PageRequestAction::Finish(Err(client_err())),
            }
        } else if self.pending[0].id.is_none() {
            self.stage = PageRequestStage::Done;
            PageRequestAction::Finish(Err(client_err()))
        } else {
            self.stage = PageRequestStage::AwaitActor;
            PageRequestAction::ResolveActor(actor_of_row(&self.pending[0]))
        }
    }

    /// Plan the page from the rows of the finished read, then go on with its
    /// rows.
    fn plan_page(&mut self, rows: Vec<RecordHistoryModel>) -> (a: PageRequestAction)
        requires
            old(self).session_present@,
            old(self).parent_authorized(),
            old(self).mapped@.len() == 0,
            old(self).views@ == old(self).mapped@,
        ensures
            final(self).follows_read(*old(self), SourceReadAction::Finish(Ok(rows)), a),
            final(self).wf(),
            final(self).read == old(self).read,
            final(self).session_present == old(self).session_present,
    {
        let mut kinds: Option<Vec<String>> = None;
        std::mem::swap(&mut kinds, &mut self.kinds);
        let (page_rows, w) = plan_history_page(rows, self.offset, self.limit, kinds);
        self.window = Some(w);
        self.pending = page_rows;
        proof {
            assert(self.mapped@ =~= Seq::<HistoryRowView>::empty());
        }
        self.continue_rows()
    }

    /// Take the caller's report and decide the next action.
    ///
    /// - Read step: the history read takes the event (see
    ///   [`SourceRead::stepped`]) and the request follows its answer (see
    ///   [`PageRequest::follows_read`]).
    /// - Actor resolved: the awaiting row is mapped into the page DTO, and
    ///   the request goes on with the rows after it. A failed resolution
    ///   answers the load failure.
    ///
    /// A page is only answered with a session and an authorized parent.
    pub fn step(&mut self, event: PageRequestEvent) -> (a: PageRequestAction)
        requires
            old(self).wf(),
            old(self).accepts(event),
        ensures
            final(self).wf(),
            final(self).session_present() == old(self).session_present(),
            a matches PageRequestAction::Finish(Ok(_)) ==> final(self).session_present()
                && final(self).parent_authorized(),
            match event {
                PageRequestEvent::Read(e) => exists|read_answer: SourceReadAction|
                    #[trigger] old(self).reading()->0.stepped(
                        final(self).reading()->0,
                        e,
                        read_answer,
                    ) && final(self).reading() is Some && final(self).follows_read(
                        *old(self),
                        read_answer,
                        a,
                    ),
                PageRequestEvent::ActorResolved(None) => a == PageRequestAction::Finish(
                    Err(HistoryPageError::LoadFailed),
                ) && final(self).stage() == PageRequestStage::Done,
                PageRequestEvent::ActorResolved(Some(presentation)) => {
                    let row = old(self).pending()[0];
                    let mapped = old(self).views().len();
                    &&& row.id is Some
                    &&& final(self).views().len() > mapped
                    &&& final(self).views().take(mapped as int) == old(self).views()
                    &&& final(self).views()[mapped as int]@ == row_view_of(
                        row,
                        presentation.0@,
                        opt_text(presentation.1),
                    )
                    &&& final(self).planned() == old(self).planned()
                    &&& final(self).continues_with(
                        a,
                        old(self).planned()->0,
                        final(self).views().take(mapped + 1int),
                        old(self).pending().drop_first(),
                    )
                },
            },
    {
        match event {
            PageRequestEvent::Read(e) => {
                let ghost before = *self;
                let mut read = match self.read.take() {
                    Some(r) => r,
                    None => {
                        return PageRequestAction::Finish(Err(client_err()));
                    },
                };
                let answer = read.step(e);
                let ghost answer_seen = answer;
                self.read = Some(read);
                let a = match answer {
                    SourceReadAction::LoadParent(r) => PageRequestAction::LoadParent(r),
                    SourceReadAction::CheckParentRead(r) => PageRequestAction::CheckParentRead(r),
                    SourceReadAction::LoadTable(t, r) => PageRequestAction::LoadTable(t, r),
                    SourceReadAction::Finish(Err(err)) => {
                        self.stage = PageRequestStage::Done;
                        PageRequestAction::Finish(Err(page_error_for(&err)))
                    },
                    SourceReadAction::Finish(Ok(rows)) => self.plan_page(rows),
                };
                proof {
                    assert(before.reading()->0.stepped(self.reading()->0, e, answer_seen));
                }
                a
            },
            PageRequestEvent::ActorResolved(None) => {
                self.stage = PageRequestStage::Done;
                PageRequestAction::Finish(Err(client_err()))
            },
            PageRequestEvent::ActorResolved(Some(presentation)) => {
                let ghost mapped_len = self.mapped@.len();
                let row = self.pending.remove(0);
                let (label, href) = presentation;
                match into_history_row_view(row, label, href) {
                    None => {
                        self.stage = PageRequestStage::Done;
                        PageRequestAction::Finish(Err(client_err()))
                    },
                    Some(view) => {
                        self.views.push(view);
                        self.mapped = Ghost(self.views@);
                        let ghost pushed = self.mapped@;
                        let a = self.continue_rows();
                        proof {
                            assert(self.views().take(pushed.len() as int) == pushed);
                            assert(pushed.take(mapped_len as int) =~= old(self).views());
                            assert(self.views().take(mapped_len as int) =~= pushed.take(
                                mapped_len as int,
                            ));
                            assert(self.views()[mapped_len as int] == pushed[mapped_len as int]);
                        }
                        a
                    },
                }
            },
        }
    }
}

/// Page rows are only mapped for a request with a session whose source's
/// parent passed every authorization gate: the `HistorySource` table gate,
/// the System load of the parent row, and the actor's Read policy on it.
/// Session presence alone is not enough. (With [`PageRequest::step`], which
/// answers a page only from such a state, no page is answered without it.)
pub proof fn law_rows_mapped_only_for_authorized_parent(req: PageRequest)
    requires
        req.wf(),
        req.stage() == PageRequestStage::AwaitActor,
    ensures
        req.session_present(),
        req.reading() matches Some(read) && read.table_gate_passed() && read.parent_found()
            && read.read_allowed(),
{
}

} // verus!
