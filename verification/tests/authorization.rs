//! Driving a parent authorization.

use record_history::authorize::{
    Authorization, AuthorizationAction, AuthorizationEvent, AuthorizationStage, ParentLookup,
    ReadCheck,
};
use record_history::error::{HistoryAccessDeniedReason, HistoryError};
use record_history::record_id::RecordId;

fn source() -> RecordId {
    RecordId::new("e2e_history_source_a", "src-1")
}

fn history_sources() -> Vec<String> {
    vec!["e2e_history_source_a".into()]
}

fn started() -> Authorization {
    let (auth, action) = Authorization::start(&source(), &history_sources(), true);
    match action {
        AuthorizationAction::LoadParent(p) => assert_eq!(p, source()),
        other => panic!("expected parent load, got {other:?}"),
    }
    auth
}

#[test]
fn authorization_passes_all_three_gates() {
    let mut auth = started();
    match auth.step(AuthorizationEvent::ParentLoaded(ParentLookup::Found)) {
        AuthorizationAction::CheckParentRead(p) => assert_eq!(p, source()),
        other => panic!("expected read check, got {other:?}"),
    }
    assert!(matches!(
        auth.step(AuthorizationEvent::ReadChecked(ReadCheck::Allowed)),
        AuthorizationAction::Finish(Ok(()))
    ));
    assert_eq!(auth.current_stage(), AuthorizationStage::Done);
}

#[test]
fn authorization_refuses_unsupported_table_and_missing_schema() {
    for (tables, schema) in [(Vec::new(), true), (history_sources(), false)] {
        let (auth, action) = Authorization::start(&source(), &tables, schema);
        match action {
            AuthorizationAction::Finish(Err(e)) => assert_eq!(
                e,
                HistoryError::access_denied(HistoryAccessDeniedReason::UnsupportedSource)
            ),
            other => panic!("expected denial, got {other:?}"),
        }
        assert_eq!(auth.current_stage(), AuthorizationStage::Done);
    }
}

#[test]
fn authorization_missing_parent_and_read_denial() {
    let mut auth = started();
    match auth.step(AuthorizationEvent::ParentLoaded(ParentLookup::Missing)) {
        AuthorizationAction::Finish(Err(e)) => assert_eq!(
            e,
            HistoryError::access_denied(HistoryAccessDeniedReason::MissingSource)
        ),
        other => panic!("expected denial, got {other:?}"),
    }
    let mut auth = started();
    auth.step(AuthorizationEvent::ParentLoaded(ParentLookup::Found));
    match auth.step(AuthorizationEvent::ReadChecked(ReadCheck::PrivacyDenied)) {
        AuthorizationAction::Finish(Err(e)) => assert_eq!(
            e,
            HistoryError::access_denied(HistoryAccessDeniedReason::ParentReadDenied)
        ),
        other => panic!("expected denial, got {other:?}"),
    }
}

#[test]
fn authorization_store_failures_are_query_errors() {
    let mut auth = started();
    match auth.step(AuthorizationEvent::ParentLoaded(ParentLookup::Failed("io".into()))) {
        AuthorizationAction::Finish(Err(e)) => assert_eq!(e, HistoryError::query("io".into())),
        other => panic!("expected query error, got {other:?}"),
    }
    let mut auth = started();
    auth.step(AuthorizationEvent::ParentLoaded(ParentLookup::Found));
    match auth.step(AuthorizationEvent::ReadChecked(ReadCheck::Failed("eval".into()))) {
        AuthorizationAction::Finish(Err(e)) => assert_eq!(e, HistoryError::query("eval".into())),
        other => panic!("expected query error, got {other:?}"),
    }
}
