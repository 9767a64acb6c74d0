//! Driving a timeline page request.

use record_history::authorize::{ParentLookup, ReadCheck};
use record_history::instant::UtcInstant;
use record_history::model::HistoryRowWire;
use record_history::page::HistoryPageError;
use record_history::page_request::{
    PageRequest, PageRequestAction, PageRequestEvent, PageRequestStage,
};
use record_history::record_id::RecordId;
use record_history::source_read::SourceReadEvent;

fn source() -> RecordId {
    RecordId::new("e2e_history_source_a", "src-1")
}

fn history_sources() -> Vec<String> {
    vec!["e2e_history_source_a".into()]
}

fn record_tables() -> Vec<String> {
    vec!["tag_history".into(), "note_history".into()]
}

fn wire(key: &str, secs: i64, actor: Option<RecordId>) -> HistoryRowWire {
    HistoryRowWire {
        id: Some(RecordId::new("record_history", key)),
        source: source(),
        field_name: "name".into(),
        old_value: "a".into(),
        new_value: "b".into(),
        changed_at: UtcInstant::from_unix(secs, 0).unwrap(),
        actor,
    }
}

fn session() -> Option<String> {
    Some("viewer-1".into())
}

fn start(
    session: Option<String>,
    fault: bool,
    offset: u32,
    limit: u32,
    kinds: Option<Vec<String>>,
) -> (PageRequest, PageRequestAction) {
    PageRequest::start(
        &session,
        fault,
        true,
        offset,
        limit,
        kinds,
        &source(),
        &history_sources(),
        true,
        record_tables(),
    )
}

/// Start with a session, pass the parent gates, and answer both table loads.
fn read_rows(
    offset: u32,
    limit: u32,
    kinds: Option<Vec<String>>,
    tags: Vec<HistoryRowWire>,
    notes: Vec<HistoryRowWire>,
) -> (PageRequest, PageRequestAction) {
    let (mut req, action) = start(session(), false, offset, limit, kinds);
    match &action {
        PageRequestAction::LoadParent(s) => assert_eq!(*s, source()),
        other => panic!("expected parent load, got {other:?}"),
    }
    let action = req.step(PageRequestEvent::Read(SourceReadEvent::ParentLoaded(ParentLookup::Found)));
    match &action {
        PageRequestAction::CheckParentRead(s) => assert_eq!(*s, source()),
        other => panic!("expected read check, got {other:?}"),
    }
    let action = req.step(PageRequestEvent::Read(SourceReadEvent::ReadChecked(ReadCheck::Allowed)));
    match &action {
        PageRequestAction::LoadTable(t, s) => {
            assert_eq!(t, "tag_history");
            assert_eq!(*s, source());
        }
        other => panic!("expected table load, got {other:?}"),
    }
    let action = req.step(PageRequestEvent::Read(SourceReadEvent::TableLoaded(Ok(tags))));
    match &action {
        PageRequestAction::LoadTable(t, s) => {
            assert_eq!(t, "note_history");
            assert_eq!(*s, source());
        }
        other => panic!("expected table load, got {other:?}"),
    }
    let action = req.step(PageRequestEvent::Read(SourceReadEvent::TableLoaded(Ok(notes))));
    (req, action)
}

#[test]
fn page_request_without_session_is_refused() {
    let (req, action) = start(None, false, 0, 25, None);
    assert!(matches!(
        action,
        PageRequestAction::Finish(Err(HistoryPageError::AuthenticationRequired))
    ));
    assert_eq!(req.current_stage(), PageRequestStage::Done);
}

#[test]
fn page_request_with_armed_fault_fails_to_load() {
    let (req, action) = start(session(), true, 0, 25, None);
    assert!(matches!(action, PageRequestAction::Finish(Err(HistoryPageError::LoadFailed))));
    assert_eq!(req.current_stage(), PageRequestStage::Done);
}

#[test]
fn page_request_without_store_fails_to_load() {
    let (req, action) = PageRequest::start(
        &session(),
        false,
        false,
        0,
        25,
        None,
        &source(),
        &history_sources(),
        true,
        record_tables(),
    );
    assert!(matches!(action, PageRequestAction::Finish(Err(HistoryPageError::LoadFailed))));
    assert_eq!(req.current_stage(), PageRequestStage::Done);
}

#[test]
fn page_request_unsupported_source_is_denied() {
    let (req, action) = PageRequest::start(
        &session(),
        false,
        true,
        0,
        25,
        None,
        &RecordId::new("user", "someone"),
        &history_sources(),
        true,
        record_tables(),
    );
    assert!(matches!(action, PageRequestAction::Finish(Err(HistoryPageError::AccessDenied))));
    assert_eq!(req.current_stage(), PageRequestStage::Done);
}

#[test]
fn page_request_maps_denial_and_query_failure() {
    let (mut req, _) = start(session(), false, 0, 25, None);
    assert!(matches!(
        req.step(PageRequestEvent::Read(SourceReadEvent::ParentLoaded(ParentLookup::Missing))),
        PageRequestAction::Finish(Err(HistoryPageError::AccessDenied))
    ));

    let (mut req, _) = start(session(), false, 0, 25, None);
    req.step(PageRequestEvent::Read(SourceReadEvent::ParentLoaded(ParentLookup::Found)));
    assert!(matches!(
        req.step(PageRequestEvent::Read(SourceReadEvent::ReadChecked(ReadCheck::PrivacyDenied))),
        PageRequestAction::Finish(Err(HistoryPageError::AccessDenied))
    ));

    let (mut req, _) = start(session(), false, 0, 25, None);
    assert!(matches!(
        req.step(PageRequestEvent::Read(SourceReadEvent::ParentLoaded(ParentLookup::Failed(
            "db down".into()
        )))),
        PageRequestAction::Finish(Err(HistoryPageError::LoadFailed))
    ));

    let (mut req, _) = start(session(), false, 0, 25, None);
    req.step(PageRequestEvent::Read(SourceReadEvent::ParentLoaded(ParentLookup::Found)));
    req.step(PageRequestEvent::Read(SourceReadEvent::ReadChecked(ReadCheck::Allowed)));
    assert!(matches!(
        req.step(PageRequestEvent::Read(SourceReadEvent::TableLoaded(Err("timeout".into())))),
        PageRequestAction::Finish(Err(HistoryPageError::LoadFailed))
    ));
}

#[test]
fn page_request_empty_history_answers_empty_page() {
    let (_, action) = read_rows(0, 25, None, Vec::new(), Vec::new());
    match action {
        PageRequestAction::Finish(Ok(page)) => {
            assert!(page.items.is_empty());
            assert!(!page.has_more);
            assert_eq!(page.total_count, Some(0));
            assert_eq!(page.next_request_offset, Some(0));
        }
        other => panic!("expected a page, got {other:?}"),
    }
}

#[test]
fn page_request_resolves_user_actors_and_labels_system_rows() {
    let alice = RecordId::new("user", "alice");
    let (mut req, action) = read_rows(
        0,
        2,
        None,
        vec![wire("old", 10, None), wire("new", 30, Some(alice.clone()))],
        vec![wire("mid", 20, None)],
    );
    // Newest first: "new" (30), "mid" (20); "old" is the look-ahead row.
    match action {
        PageRequestAction::ResolveActor(actor) => assert_eq!(actor, alice),
        other => panic!("expected actor resolution, got {other:?}"),
    }
    // "mid" and "old" have no actor: they are System rows, mapped at once.
    match req.step(PageRequestEvent::ActorResolved(Some((
        "Alice".into(),
        Some("/user/alice".into()),
    )))) {
        PageRequestAction::Finish(Ok(page)) => {
            assert_eq!(page.items.len(), 2);
            assert_eq!(page.items[0].kind, "tag_history");
            assert_eq!(page.items[0].row_id, "new");
            assert_eq!(page.items[0].actor_label, "Alice");
            assert_eq!(page.items[0].actor_href.as_deref(), Some("/user/alice"));
            assert_eq!(page.items[1].kind, "note_history");
            assert_eq!(page.items[1].row_id, "mid");
            assert_eq!(page.items[1].actor_label, "System");
            assert_eq!(page.items[1].actor_href, None);
            assert_eq!(page.items[1].change_line, "changed name from \"a\" to \"b\"");
            assert!(page.has_more);
            assert_eq!(page.total_count, Some(3));
            assert_eq!(page.next_request_offset, Some(2));
        }
        other => panic!("expected a page, got {other:?}"),
    }
    assert_eq!(req.current_stage(), PageRequestStage::Done);
}

#[test]
fn page_request_all_system_rows_need_no_resolution() {
    let (_, action) = read_rows(0, 25, None, vec![wire("t1", 10, None)], vec![wire("n1", 20, None)]);
    match action {
        PageRequestAction::Finish(Ok(page)) => {
            assert_eq!(page.items.len(), 2);
            assert_eq!(page.items[0].row_id, "n1");
            assert!(page.items.iter().all(|v| v.actor_label == "System" && v.actor_href.is_none()));
            assert!(!page.has_more);
        }
        other => panic!("expected a page, got {other:?}"),
    }
}

#[test]
fn page_request_kind_filter_and_failed_actor() {
    let bob = RecordId::new("user", "bob");
    let (mut req, action) = read_rows(
        0,
        25,
        Some(vec!["note_history".into()]),
        vec![wire("t1", 10, Some(bob.clone()))],
        vec![wire("n1", 20, Some(bob.clone()))],
    );
    match action {
        PageRequestAction::ResolveActor(actor) => assert_eq!(actor, bob),
        other => panic!("expected actor resolution, got {other:?}"),
    }
    assert!(matches!(
        req.step(PageRequestEvent::ActorResolved(None)),
        PageRequestAction::Finish(Err(HistoryPageError::LoadFailed))
    ));
}

#[test]
fn page_request_row_without_id_fails_before_actor() {
    let mut orphan = wire("x", 10, Some(RecordId::new("user", "u")));
    orphan.id = None;
    let (req, action) = read_rows(0, 25, None, vec![orphan], Vec::new());
    assert!(matches!(action, PageRequestAction::Finish(Err(HistoryPageError::LoadFailed))));
    assert_eq!(req.current_stage(), PageRequestStage::Done);
}
