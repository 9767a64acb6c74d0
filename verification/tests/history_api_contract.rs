//! Named happy/sad contracts for row identity and the line formatters.

use record_history::format::{format_change_line, format_line};
use record_history::instant::UtcInstant;
use record_history::model::RecordHistoryModel;
use record_history::record_id::{history_row_identity, RecordId};

fn source_a_record_id() -> RecordId {
    RecordId::new("e2e_history_source_a", "test-history-source-001")
}

fn fixture_row(field: &str, old: &str, new: &str) -> RecordHistoryModel {
    RecordHistoryModel {
        id: None,
        source: source_a_record_id(),
        field_name: field.to_string(),
        old_value: old.to_string(),
        new_value: new.to_string(),
        changed_at: UtcInstant::from_unix(1_767_225_600, 0).expect("instant"),
        actor: None,
    }
}

#[test]
fn history_row_identity_splits_table_and_id_happy_path() {
    let id = RecordId::new("tag_history", "abc");
    assert_eq!(history_row_identity(&id), ("tag_history", "abc"));

    let other = RecordId::new("e2e_record_history_fixture", "row-1");
    assert_eq!(
        history_row_identity(&other),
        ("e2e_record_history_fixture", "row-1")
    );
}

#[test]
fn history_row_identity_splits_kind_and_row_id_happy_path() {
    let id = RecordId::new("e2e_record_history_fixture", "row-42");
    assert_eq!(
        history_row_identity(&id),
        ("e2e_record_history_fixture", "row-42")
    );

    let alt = RecordId::new("e2e_record_history_fixture_alt", "alt-7");
    assert_eq!(
        history_row_identity(&alt),
        ("e2e_record_history_fixture_alt", "alt-7")
    );
}

#[test]
fn history_row_identity_preserves_empty_row_id_sad() {
    let id = RecordId::new("e2e_record_history_fixture", "");
    assert_eq!(
        history_row_identity(&id),
        ("e2e_record_history_fixture", "")
    );
}

#[test]
fn format_change_line_field_diff_happy_path() {
    let row = fixture_row("name", "Office", "Office Supplies");
    assert_eq!(
        format_change_line(&row),
        "changed name from \"Office\" to \"Office Supplies\""
    );
}

#[test]
fn format_line_includes_actor_prefix_happy_path() {
    let row = fixture_row("status", "draft", "active");
    let line = format_line(&row, "Alice Chen", Some("/user/alice"));
    assert_eq!(
        line,
        "[Alice Chen] changed status from \"draft\" to \"active\""
    );
}

#[test]
fn format_change_line_created_and_deleted_happy_path() {
    let created = fixture_row("created", "", "Office Supplies");
    assert_eq!(format_change_line(&created), "created");

    let deleted = fixture_row("deleted", "", "Office Supplies");
    assert_eq!(format_change_line(&deleted), "deleted \"Office Supplies\"");
}

#[test]
fn format_change_line_edge_add_and_remove_happy_path() {
    let added = fixture_row("member_users", "", "user:9f3a");
    assert_eq!(
        format_change_line(&added),
        "added member_users: \"user:9f3a\""
    );

    let removed = fixture_row("granted_users", "user:1a2b", "");
    assert_eq!(
        format_change_line(&removed),
        "removed granted_users: \"user:1a2b\""
    );
}

#[test]
fn format_change_line_truncates_overlong_values_sad() {
    let long = "x".repeat(100);
    let row = fixture_row("description", "short", &long);
    let line = format_change_line(&row);
    assert!(line.contains("changed description"));
    assert!(line.contains("..."));
    assert!(!line.contains(&long));
    assert_eq!(line.chars().filter(|c| *c == 'x').count(), 80);
}

#[test]
fn format_change_line_truncates_edge_add_new_value_sad() {
    let long = "y".repeat(100);
    let row = fixture_row("member_users", "", &long);
    let line = format_change_line(&row);
    assert!(line.starts_with("added member_users:"));
    assert!(line.contains("..."));
    assert!(!line.contains(&long));
}

#[test]
fn format_line_renders_diff() {
    let row = fixture_row("name", "Office", "Office Supplies");
    let line = format_line(&row, "Alice Chen", Some("/user/alice"));
    assert!(line.contains("Alice Chen"));
    assert!(line.contains("name"));
    assert!(line.contains("Office"));
    assert!(line.contains("Office Supplies"));
}

#[test]
fn format_change_line_created() {
    let row = fixture_row("created", "", "Office Supplies");
    assert_eq!(format_change_line(&row), "created");
}

#[test]
fn format_change_line_deleted() {
    let row = fixture_row("deleted", "", "Office Supplies");
    assert_eq!(format_change_line(&row), "deleted \"Office Supplies\"");
}

#[test]
fn format_change_line_truncates_long_values() {
    let long = "x".repeat(100);
    let row = fixture_row("description", "short", &long);
    let line = format_change_line(&row);
    assert!(line.contains("changed description"));
    assert!(line.contains("..."));
    assert!(!line.contains(&"x".repeat(100)));
}

#[test]
fn format_change_line_exactly_eighty_chars_is_not_cut() {
    let eighty = "z".repeat(80);
    let row = fixture_row("note", "a", &eighty);
    assert_eq!(
        format_change_line(&row),
        format!("changed note from \"a\" to \"{eighty}\"")
    );
    let eighty_one = "z".repeat(81);
    let row = fixture_row("note", "a", &eighty_one);
    assert_eq!(
        format_change_line(&row),
        format!("changed note from \"a\" to \"{eighty}...\"")
    );
}

#[test]
fn format_change_line_counts_characters_not_bytes() {
    let wide = "é".repeat(81);
    let row = fixture_row("label", "", &wide);
    let line = format_change_line(&row);
    assert_eq!(line, format!("added label: \"{}...\"", "é".repeat(80)));
}

#[test]
fn format_change_line_both_empty_is_a_change() {
    let row = fixture_row("name", "", "");
    assert_eq!(format_change_line(&row), "changed name from \"\" to \"\"");
}

#[test]
fn format_change_line_deleted_truncates_label() {
    let long = "d".repeat(90);
    let row = fixture_row("deleted", "", &long);
    assert_eq!(
        format_change_line(&row),
        format!("deleted \"{}...\"", "d".repeat(80))
    );
}

#[test]
fn format_line_ignores_missing_href() {
    let row = fixture_row("created", "", "x");
    assert_eq!(format_line(&row, "System", None), "[System] created");
}
