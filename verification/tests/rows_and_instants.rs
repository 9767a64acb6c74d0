//! Instants, the per-table row mapping and the page DTO mapping.

use record_history::constants::{e2e_record_history_empty_source, e2e_record_history_source};
use record_history::entry::history_row_view_to_entry;
use record_history::entry::HistoryChange;
use record_history::instant::{parse_rfc3339_or_epoch, UtcInstant, MAX_UTC_TIMESTAMP, MIN_UTC_TIMESTAMP};
use record_history::model::{history_rows_for_table, HistoryRowWire, RecordHistoryModel};
use record_history::record_id::RecordId;
use record_history::row_view::into_history_row_view;

#[test]
fn instant_bounds_match_chrono() {
    assert_eq!(chrono::DateTime::<chrono::Utc>::MIN_UTC.timestamp(), MIN_UTC_TIMESTAMP);
    assert_eq!(chrono::DateTime::<chrono::Utc>::MAX_UTC.timestamp(), MAX_UTC_TIMESTAMP);
    assert!(UtcInstant::from_unix(MIN_UTC_TIMESTAMP, 0).is_some());
    assert!(UtcInstant::from_unix(MIN_UTC_TIMESTAMP - 1, 999_999_999).is_none());
    assert!(UtcInstant::from_unix(MAX_UTC_TIMESTAMP, 999_999_999).is_some());
    assert!(UtcInstant::from_unix(MAX_UTC_TIMESTAMP + 1, 0).is_none());
}

#[test]
fn leap_second_nanos_only_on_second_fifty_nine() {
    assert!(UtcInstant::from_unix(59, 1_500_000_000).is_some());
    assert!(UtcInstant::from_unix(58, 1_500_000_000).is_none());
    assert!(UtcInstant::from_unix(59, 2_000_000_000).is_none());
    assert!(UtcInstant::from_unix(-1, 1_000_000_000).is_some());
}

#[test]
fn rfc3339_text_and_parse() {
    let t = UtcInstant::from_unix(1_767_225_600, 0).unwrap();
    assert_eq!(t.to_rfc3339(), "2026-01-01T00:00:00+00:00");
    let p = parse_rfc3339_or_epoch("2026-01-01T00:00:00+00:00");
    assert_eq!(p, t);
    assert_eq!(parse_rfc3339_or_epoch("2026-13-01T00:00:00Z"), UtcInstant::unix_epoch());
    let frac = UtcInstant::from_unix(1, 500_000_000).unwrap();
    assert_eq!(frac.to_rfc3339(), "1970-01-01T00:00:01.500+00:00");
}

#[test]
fn instants_compare_by_seconds_then_nanos() {
    let a = UtcInstant::from_unix(10, 5).unwrap();
    let b = UtcInstant::from_unix(10, 6).unwrap();
    let c = UtcInstant::from_unix(11, 0).unwrap();
    assert!(b.is_after(&a));
    assert!(c.is_after(&b));
    assert!(!a.is_after(&a));
    assert!(!a.is_after(&c));
}

fn wire(id: Option<RecordId>, field: &str) -> HistoryRowWire {
    HistoryRowWire {
        id,
        source: e2e_record_history_source(),
        field_name: field.into(),
        old_value: "o".into(),
        new_value: "n".into(),
        changed_at: UtcInstant::from_unix(100, 0).unwrap(),
        actor: Some(RecordId::new("user", "u-1")),
    }
}

#[test]
fn per_table_rows_report_the_table_they_were_read_from() {
    let rows = vec![
        wire(Some(RecordId::new("e2e_record_history_fixture", "a")), "name"),
        wire(Some(RecordId::new("record_history", "b")), "status"),
        wire(None, "note"),
    ];
    let out = history_rows_for_table("e2e_record_history_fixture", rows);
    assert_eq!(out.len(), 3);
    assert_eq!(out[0].id, Some(RecordId::new("e2e_record_history_fixture", "a")));
    assert_eq!(out[1].id, Some(RecordId::new("e2e_record_history_fixture", "b")));
    assert_eq!(out[2].id, None);
    assert_eq!(out[1].field_name, "status");
    assert_eq!(out[1].actor, Some(RecordId::new("user", "u-1")));
}

fn model(field: &str, old: &str, new: &str) -> RecordHistoryModel {
    RecordHistoryModel {
        id: Some(RecordId::new("tag_history", "row-9")),
        source: RecordId::new("tag", "t-1"),
        field_name: field.into(),
        old_value: old.into(),
        new_value: new.into(),
        changed_at: UtcInstant::from_unix(1_767_225_600, 0).unwrap(),
        actor: None,
    }
}

#[test]
fn row_view_carries_identity_raw_values_and_change_line() {
    let long = "v".repeat(100);
    let view = into_history_row_view(model("description", "short", &long), "System".into(), None)
        .expect("row has id");
    assert_eq!(view.kind, "tag_history");
    assert_eq!(view.row_id, "row-9");
    assert_eq!(view.new_value, long);
    assert_eq!(view.changed_at, "2026-01-01T00:00:00+00:00");
    assert_eq!(view.actor_label, "System");
    assert_eq!(view.actor_href, None);
    assert!(view.change_line.ends_with("...\""));
    let no_id = RecordHistoryModel { id: None, ..model("name", "a", "b") };
    assert!(into_history_row_view(no_id, "System".into(), None).is_none());
}

#[test]
fn server_row_then_client_entry_keeps_the_stored_values() {
    let deleted = into_history_row_view(model("deleted", "", ""), "Ada".into(), Some("/user/ada".into())).unwrap();
    let entry = history_row_view_to_entry(deleted);
    assert_eq!(entry.change, HistoryChange::Deleted { label: String::new() });
    assert_eq!(entry.changed_at, UtcInstant::from_unix(1_767_225_600, 0).unwrap());
    let diff = into_history_row_view(model("name", "Office", "Office Supplies"), "Ada".into(), None).unwrap();
    let entry = history_row_view_to_entry(diff);
    assert_eq!(entry.id, "row-9");
    assert_eq!(entry.kind, "tag_history");
    assert_eq!(
        entry.change,
        HistoryChange::FieldDiff {
            field: "name".into(),
            old_value: "Office".into(),
            new_value: "Office Supplies".into()
        }
    );
}

#[test]
fn e2e_fixture_sources() {
    assert_eq!(
        e2e_record_history_source(),
        RecordId::new("e2e_history_source_a", "e2e-history-source-001")
    );
    assert_eq!(
        e2e_record_history_empty_source(),
        RecordId::new("e2e_history_source_b", "e2e-history-empty")
    );
}
