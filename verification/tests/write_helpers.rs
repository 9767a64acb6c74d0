//! Write payload helpers and their agreement with the formatter.

use record_history::format::change_line_of;
use record_history::{
    history_created, history_deleted, history_edge_added, history_edge_removed,
    history_field_changed,
};

#[test]
fn edge_helpers_set_empty_sentinels() {
    let a = history_edge_added("member_users", "user:1");
    assert_eq!(a.old_value, "");
    assert_eq!(a.new_value, "user:1");
    let r = history_edge_removed("member_users", "user:1");
    assert_eq!(r.new_value, "");
    assert_eq!(r.old_value, "user:1");
}

#[test]
fn field_changed_keeps_both_values() {
    let rename = history_field_changed("name", "Office", "Office Supplies");
    assert_eq!(rename.field_name, "name");
    assert_eq!(rename.old_value, "Office");
    assert_eq!(rename.new_value, "Office Supplies");
}

#[test]
fn lifecycle_helpers_use_lifecycle_field_names() {
    let c = history_created("Office");
    assert_eq!((c.field_name.as_str(), c.old_value.as_str(), c.new_value.as_str()), ("created", "", "Office"));
    let d = history_deleted("Office");
    assert_eq!((d.field_name.as_str(), d.old_value.as_str(), d.new_value.as_str()), ("deleted", "", "Office"));
}

#[test]
fn helpers_format_as_documented() {
    let grant = history_edge_added("granted_users", "user:42");
    assert_eq!(
        change_line_of(&grant.field_name, &grant.old_value, &grant.new_value),
        "added granted_users: \"user:42\""
    );
    let revoke = history_edge_removed("granted_users", "user:42");
    assert_eq!(
        change_line_of(&revoke.field_name, &revoke.old_value, &revoke.new_value),
        "removed granted_users: \"user:42\""
    );
    let rename = history_field_changed("name", "Office", "Office Supplies");
    assert_eq!(
        change_line_of(&rename.field_name, &rename.old_value, &rename.new_value),
        "changed name from \"Office\" to \"Office Supplies\""
    );
    let created = history_created("Office");
    assert_eq!(
        change_line_of(&created.field_name, &created.old_value, &created.new_value),
        "created"
    );
    let deleted = history_deleted("Office");
    assert_eq!(
        change_line_of(&deleted.field_name, &deleted.old_value, &deleted.new_value),
        "deleted \"Office\""
    );
}
