//! Page DTO rows mapped onto timeline entries.

use record_history::entry::{
    deleted_label, history_row_view_to_entry, map_history_page, user_id_from_href, HistoryActor,
    HistoryChange,
};
use record_history::instant::UtcInstant;
use record_history::page::Page;
use record_history::row_view::HistoryRowView;

fn sample_row() -> HistoryRowView {
    HistoryRowView {
        kind: "tag_history".into(),
        row_id: "row-1".into(),
        field_name: "name".into(),
        old_value: "a".into(),
        new_value: "b".into(),
        changed_at: "2026-01-01T00:00:00Z".into(),
        actor_label: "Ada".into(),
        actor_href: Some("/user/ada".into()),
        change_line: "changed name from \"a\" to \"b\"".into(),
    }
}

#[test]
fn maps_field_diff_happy_path() {
    let entry = history_row_view_to_entry(sample_row());
    assert_eq!(entry.id, "row-1");
    assert_eq!(entry.kind, "tag_history");
    assert_eq!(
        entry.change,
        HistoryChange::FieldDiff {
            field: "name".into(),
            old_value: "a".into(),
            new_value: "b".into(),
        }
    );
    assert_eq!(
        entry.actor,
        HistoryActor::User {
            id: "ada".into(),
            display_name: "Ada".into(),
            href: Some("/user/ada".into()),
        }
    );
}

#[test]
fn maps_edge_add_to_field_diff() {
    let mut row = sample_row();
    row.field_name = "member_users".into();
    row.old_value = String::new();
    row.new_value = "user:9f3a".into();
    row.change_line = "added member_users: \"user:9f3a\"".into();
    let entry = history_row_view_to_entry(row);
    assert_eq!(
        entry.change,
        HistoryChange::FieldDiff {
            field: "member_users".into(),
            old_value: String::new(),
            new_value: "user:9f3a".into(),
        }
    );
}

#[test]
fn maps_created_and_deleted_happy_path() {
    let mut created = sample_row();
    created.field_name = "created".into();
    created.change_line = "created".into();
    created.actor_label = "System".into();
    created.actor_href = None;
    let created_entry = history_row_view_to_entry(created);
    assert_eq!(created_entry.change, HistoryChange::Created);
    assert_eq!(created_entry.actor, HistoryActor::System);

    let mut deleted = sample_row();
    deleted.field_name = "deleted".into();
    deleted.new_value = "Office".into();
    deleted.change_line = "deleted \"Office\"".into();
    let deleted_entry = history_row_view_to_entry(deleted);
    assert_eq!(
        deleted_entry.change,
        HistoryChange::Deleted {
            label: "Office".into(),
        }
    );
}

#[test]
fn bad_changed_at_falls_back_to_epoch_sad_path() {
    let mut row = sample_row();
    row.changed_at = "not-a-date".into();
    let entry = history_row_view_to_entry(row);
    assert_eq!(entry.changed_at, UtcInstant::unix_epoch());
}

#[test]
fn map_history_page_preserves_paging_metadata() {
    let page = Page {
        items: vec![sample_row()],
        has_more: true,
        total_count: Some(42),
        next_request_offset: Some(25),
    };
    let mapped = map_history_page(page);
    assert_eq!(mapped.items.len(), 1);
    assert!(mapped.has_more);
    assert_eq!(mapped.total_count, Some(42));
    assert_eq!(mapped.next_request_offset, Some(25));
    assert_eq!(mapped.items[0].kind, "tag_history");
}

#[test]
fn changed_at_is_parsed_with_offset_and_fraction() {
    let entry = history_row_view_to_entry(sample_row());
    assert_eq!(entry.changed_at.timestamp(), 1_767_225_600);
    assert_eq!(entry.changed_at.subsec_nanos(), 0);

    let mut row = sample_row();
    row.changed_at = "2026-01-01T01:00:00.25+01:00".into();
    let entry = history_row_view_to_entry(row);
    assert_eq!(entry.changed_at.timestamp(), 1_767_225_600);
    assert_eq!(entry.changed_at.subsec_nanos(), 250_000_000);
}

#[test]
fn deleted_label_recovered_from_change_line_when_new_value_empty() {
    let mut row = sample_row();
    row.field_name = "deleted".into();
    row.new_value = String::new();
    row.change_line = "deleted \"Office Supplies\"".into();
    let entry = history_row_view_to_entry(row);
    assert_eq!(
        entry.change,
        HistoryChange::Deleted {
            label: "Office Supplies".into()
        }
    );
}

#[test]
fn deleted_label_edge_cases() {
    assert_eq!(deleted_label("deleted \"Office\""), "Office");
    assert_eq!(deleted_label("deleted \"\""), "");
    assert_eq!(deleted_label("  \"Quoted\"  "), "Quoted");
    assert_eq!(deleted_label("deleted  plain "), "plain");
    assert_eq!(deleted_label("\""), "\"");
    assert_eq!(deleted_label("deleted \"open"), "\"open");
    assert_eq!(deleted_label("deleted \"  spaced  \""), "  spaced  ");
}

#[test]
fn unknown_user_when_href_is_not_a_profile_link() {
    let mut row = sample_row();
    row.actor_href = Some("https://evil.example/user/x".into());
    let entry = history_row_view_to_entry(row);
    assert_eq!(
        entry.actor,
        HistoryActor::User {
            id: "unknown".into(),
            display_name: "Ada".into(),
            href: Some("https://evil.example/user/x".into()),
        }
    );
    let mut row = sample_row();
    row.actor_href = None;
    let entry = history_row_view_to_entry(row);
    assert_eq!(
        entry.actor,
        HistoryActor::User {
            id: "unknown".into(),
            display_name: "Ada".into(),
            href: None,
        }
    );
}

#[test]
fn user_id_from_href_cases() {
    assert_eq!(user_id_from_href("/user/ada"), Some("ada".into()));
    assert_eq!(user_id_from_href("/user/"), None);
    assert_eq!(user_id_from_href("/user/a/b"), None);
    assert_eq!(user_id_from_href("/users/ada"), None);
    assert_eq!(user_id_from_href(""), None);
}
