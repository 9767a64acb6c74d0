//! History errors and the fail-closed parent authorization gates.

use record_history::authorize::{
    authorize_parent_lookup, authorize_read_check, authorize_source_table, ParentLookup,
    ReadCheck,
};
use record_history::error::{HistoryAccessDeniedReason, HistoryError, HISTORY_ACCESS_DENIED};
use record_history::record_id::RecordId;

#[test]
fn access_denied_display_has_no_record_id_or_email_sad() {
    let err = HistoryError::access_denied(HistoryAccessDeniedReason::ParentReadDenied);
    let msg = err.message();
    assert_eq!(msg, HISTORY_ACCESS_DENIED);
    assert!(!msg.contains('@'));
    assert!(!msg.contains("user:"));
    assert!(!msg.contains("e2e_history"));
}

#[test]
fn missing_and_unsupported_share_display_happy_path() {
    let missing = HistoryError::access_denied(HistoryAccessDeniedReason::MissingSource);
    let unsupported = HistoryError::access_denied(HistoryAccessDeniedReason::UnsupportedSource);
    assert_eq!(missing.message(), unsupported.message());
    assert!(missing.is_access_denied());
}

#[test]
fn query_errors_are_not_access_denials() {
    let err = HistoryError::query("disk on fire user:1".into());
    assert!(!err.is_access_denied());
    assert_eq!(err.message(), "history query failed");
}

fn tables() -> Vec<String> {
    vec!["e2e_history_source_a".into(), "e2e_history_source_b".into()]
}

#[test]
fn source_table_gate() {
    let a = RecordId::new("e2e_history_source_a", "x");
    assert_eq!(authorize_source_table(&a, &tables(), true), Ok(()));
    assert_eq!(
        authorize_source_table(&a, &tables(), false),
        Err(HistoryError::access_denied(HistoryAccessDeniedReason::UnsupportedSource))
    );
    let other = RecordId::new("not_a_history_source", "guessed");
    assert_eq!(
        authorize_source_table(&other, &tables(), true),
        Err(HistoryError::access_denied(HistoryAccessDeniedReason::UnsupportedSource))
    );
    let prefix = RecordId::new("e2e_history_source", "x");
    assert!(authorize_source_table(&prefix, &tables(), true).is_err());
}

#[test]
fn parent_lookup_gate() {
    assert_eq!(authorize_parent_lookup(ParentLookup::Found), Ok(()));
    assert_eq!(
        authorize_parent_lookup(ParentLookup::Missing),
        Err(HistoryError::access_denied(HistoryAccessDeniedReason::MissingSource))
    );
    assert_eq!(
        authorize_parent_lookup(ParentLookup::Failed("io".into())),
        Err(HistoryError::query("io".into()))
    );
}

#[test]
fn read_check_gate() {
    assert_eq!(authorize_read_check(ReadCheck::Allowed), Ok(()));
    assert_eq!(
        authorize_read_check(ReadCheck::PrivacyDenied),
        Err(HistoryError::access_denied(HistoryAccessDeniedReason::ParentReadDenied))
    );
    assert_eq!(
        authorize_read_check(ReadCheck::Failed("boom".into())),
        Err(HistoryError::query("boom".into()))
    );
}

#[test]
fn every_denial_reads_the_same() {
    let reasons = [
        HistoryAccessDeniedReason::MissingSource,
        HistoryAccessDeniedReason::UnsupportedSource,
        HistoryAccessDeniedReason::ParentReadDenied,
    ];
    for r in reasons {
        assert_eq!(HistoryError::access_denied(r).message(), HISTORY_ACCESS_DENIED);
    }
}
