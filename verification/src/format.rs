//! Default timeline line formatting from the audit fields.
//!
//! These helpers are pure and infallible.
//!
//! | `field_name` | `old_value` / `new_value` | line |
//! |---|---|---|
//! | `created` | often empty / label | `created` |
//! | `deleted` | empty / previous label | `deleted "{new}"` |
//! | any (edge add) | empty old, non-empty new | `added {field}: "{new}"` |
//! | any (edge remove) | non-empty old, empty new | `removed {field}: "{old}"` |
//! | any (scalar) | otherwise | `changed {field} from "{old}" to "{new}"` |
//!
//! Values longer than [`DISPLAY_VALUE_MAX_LEN`] characters are cut to that many
//! characters followed by `...`.

use vstd::prelude::*;

use crate::model::RecordHistoryModel;
use crate::text::same_text;

verus! {

/// Longest value (in characters) shown verbatim in a change line.
pub const DISPLAY_VALUE_MAX_LEN: usize = 80;

/// A value as shown in a change line.
pub open spec fn display_value(v: Seq<char>) -> Seq<char> {
    if v.len() <= DISPLAY_VALUE_MAX_LEN {
        v
    } else {
        v.take(DISPLAY_VALUE_MAX_LEN as int) + "..."@
    }
}

/// The change line for a row with these audit fields.
pub open spec fn change_line(field: Seq<char>, old: Seq<char>, new: Seq<char>) -> Seq<char> {
    if field == "created"@ {
        "created"@
    } else if field == "deleted"@ {
        "deleted \""@ + display_value(new) + "\""@
    } else if old.len() == 0 && new.len() != 0 {
        "added "@ + field + ": \""@ + display_value(new) + "\""@
    } else if old.len() != 0 && new.len() == 0 {
        "removed "@ + field + ": \""@ + display_value(old) + "\""@
    } else {
        "changed "@ + field + " from \""@ + display_value(old) + "\" to \""@ + display_value(new)
            + "\""@
    }
}

/// The full audit line: the actor in brackets, a space, then the change line.
pub open spec fn audit_line(actor_display: Seq<char>, line: Seq<char>) -> Seq<char> {
    "["@ + actor_display + "]"@ + " "@ + line
}

/// A value cut for display.
pub fn truncate_display(value: &str) -> (r: String)
    ensures
        r@ == display_value(value@),
{
    if value.unicode_len() <= DISPLAY_VALUE_MAX_LEN {
        return value.to_owned();
    }
    let mut out = value.substring_char(0, DISPLAY_VALUE_MAX_LEN).to_owned();
    out.append("...");
    out
}

/// The change line for these audit fields.
pub fn change_line_of(field: &str, old_raw: &str, new_raw: &str) -> (r: String)
    ensures
        r@ == change_line(field@, old_raw@, new_raw@),
{
    let old = truncate_display(old_raw);
    let new = truncate_display(new_raw);
    if same_text(field, "created") {
        String::from_str("created")
    } else if same_text(field, "deleted") {
        let mut out = String::from_str("deleted \"");
        out.append(new.as_str());
        out.append("\"");
        out
    } else if old_raw.is_empty() && !new_raw.is_empty() {
        let mut out = String::from_str("added ");
        out.append(field);
        out.append(": \"");
        out.append(new.as_str());
        out.append("\"");
        out
    } else if !old_raw.is_empty() && new_raw.is_empty() {
        let mut out = String::from_str("removed ");
        out.append(field);
        out.append(": \"");
        out.append(old.as_str());
        out.append("\"");
        out
    } else {
        let mut out = String::from_str("changed ");
        out.append(field);
        out.append(" from \"");
        out.append(old.as_str());
        out.append("\" to \"");
        out.append(new.as_str());
        out.append("\"");
        out
    }
}

/// Change-line text only (no actor prefix) for the timeline (`change_line`
/// on the page DTO).
pub fn format_change_line(row: &RecordHistoryModel) -> (r: String)
    ensures
        r@ == change_line(row.field_name@, row.old_value@, row.new_value@),
{
    change_line_of(row.field_name.as_str(), row.old_value.as_str(), row.new_value.as_str())
}

/// A full audit line including the actor: `[Actor] changed field from "old" to
/// "new"`. The profile link is accepted for symmetry with the page DTO and is
/// not part of the text.
pub fn format_line(row: &RecordHistoryModel, actor_display: &str, actor_href: Option<&str>) -> (r:
    String)
    ensures
        r@ == audit_line(
            actor_display@,
            change_line(row.field_name@, row.old_value@, row.new_value@),
        ),
{
    let _ = actor_href;
    let mut out = String::from_str("[");
    out.append(actor_display);
    out.append("]");
    out.append(" ");
    let line = format_change_line(row);
    out.append(line.as_str());
    out
}

} // verus!
