//! Map page DTO rows onto timeline entries.
//!
//! - `field_name == "created"` → [`HistoryChange::Created`]
//! - `field_name == "deleted"` → [`HistoryChange::Deleted`] (label from
//!   `new_value`, or recovered from `change_line` when that is empty)
//! - otherwise → [`HistoryChange::FieldDiff`] with the full old/new strings
//!
//! Invalid `changed_at` strings fall back to the Unix epoch (never panics).

use vstd::prelude::*;

use crate::instant::{parse_rfc3339_or_epoch, rfc3339_or_epoch, UtcInstant};
use crate::page::Page;
use crate::row_view::{opt_text, HistoryRowSpec, HistoryRowView};
use crate::text::{
    has_prefix, has_suffix, same_text, strip_prefix_text, strip_suffix_text, trim_text, trim_ws,
};

verus! {

/// Who made a change, as the timeline shows it.
#[derive(Debug, Clone, PartialEq, Eq)]
pub enum HistoryActor {
    /// Automated / system change.
    System,
    /// A user, with an optional profile link.
    User { id: String, display_name: String, href: Option<String> },
}

/// What changed, as the timeline shows it.
#[derive(Debug, Clone, PartialEq, Eq)]
pub enum HistoryChange {
    /// The record was created.
    Created,
    /// The record was deleted; `label` names it.
    Deleted { label: String },
    /// A field or relation changed from `old_value` to `new_value`.
    FieldDiff { field: String, old_value: String, new_value: String },
    /// Free-form summary for product renderers.
    Custom { summary: String },
}

/// One timeline entry.
#[derive(Debug, Clone, PartialEq, Eq)]
pub struct HistoryEntry {
    /// Bare history-row PK.
    pub id: String,
    /// Concrete history table name.
    pub kind: String,
    /// When the change happened.
    pub changed_at: UtcInstant,
    /// Who made it.
    pub actor: HistoryActor,
    /// What changed.
    pub change: HistoryChange,
}

/// Mathematical content of a [`HistoryActor`].
pub enum HistoryActorSpec {
    System,
    User { id: Seq<char>, display_name: Seq<char>, href: Option<Seq<char>> },
}

/// Mathematical content of a [`HistoryChange`].
pub enum HistoryChangeSpec {
    Created,
    Deleted { label: Seq<char> },
    FieldDiff { field: Seq<char>, old_value: Seq<char>, new_value: Seq<char> },
    Custom { summary: Seq<char> },
}

/// Mathematical content of a [`HistoryEntry`].
pub struct HistoryEntrySpec {
    pub id: Seq<char>,
    pub kind: Seq<char>,
    pub changed_at: (int, int),
    pub actor: HistoryActorSpec,
    pub change: HistoryChangeSpec,
}

impl View for HistoryActor {
    type V = HistoryActorSpec;

    open spec fn view(&self) -> HistoryActorSpec {
        match self {
            HistoryActor::System => HistoryActorSpec::System,
            HistoryActor::User { id, display_name, href } => HistoryActorSpec::User {
                id: id@,
                display_name: display_name@,
                href: opt_text(*href),
            },
        }
    }
}

impl View for HistoryChange {
    type V = HistoryChangeSpec;

    open spec fn view(&self) -> HistoryChangeSpec {
        match self {
            HistoryChange::Created => HistoryChangeSpec::Created,
            HistoryChange::Deleted { label } => HistoryChangeSpec::Deleted { label: label@ },
            HistoryChange::FieldDiff { field, old_value, new_value } =>
                HistoryChangeSpec::FieldDiff {
                field: field@,
                old_value: old_value@,
                new_value: new_value@,
            },
            HistoryChange::Custom { summary } => HistoryChangeSpec::Custom { summary: summary@ },
        }
    }
}

impl View for HistoryEntry {
    type V = HistoryEntrySpec;

    open spec fn view(&self) -> HistoryEntrySpec {
        HistoryEntrySpec {
            id: self.id@,
            kind: self.kind@,
            changed_at: self.changed_at@,
            actor: self.actor@,
            change: self.change@,
        }
    }
}

/// The bare user id of a profile link `/user/{id}`: present when the rest
/// after `/user/` is non-empty and has no further `/`.
pub open spec fn user_id_of_href(href: Seq<char>) -> Option<Seq<char>> {
    if has_prefix(href, "/user/"@) {
        let rest = href.skip("/user/"@.len() as int);
        if rest.len() == 0 || rest.contains('/') {
            None
        } else {
            Some(rest)
        }
    } else {
        None
    }
}

/// The timeline actor for a DTO's actor label and link.
pub open spec fn actor_of(label: Seq<char>, href: Option<Seq<char>>) -> HistoryActorSpec {
    if label == "System"@ {
        HistoryActorSpec::System
    } else {
        HistoryActorSpec::User {
            id: match href {
                Some(h) => match user_id_of_href(h) {
                    Some(id) => id,
                    None => "unknown"@,
                },
                None => "unknown"@,
            },
            display_name: label,
            href,
        }
    }
}

/// The label recovered from a `deleted "label"` change line: the `deleted `
/// prefix dropped (when present), surrounding whitespace trimmed, and one pair
/// of enclosing double quotes removed (when both are present).
pub open spec fn deleted_label_of(change_line: Seq<char>) -> Seq<char> {
    let body = if has_prefix(change_line, "deleted "@) {
        change_line.skip("deleted "@.len() as int)
    } else {
        change_line
    };
    let trimmed = trim_ws(body);
    if has_prefix(trimmed, "\""@) && has_suffix(trimmed.skip(1), "\""@) {
        trimmed.subrange(1, trimmed.len() - 1)
    } else {
        trimmed
    }
}

/// The timeline change for a DTO row.
pub open spec fn change_of(row: HistoryRowSpec) -> HistoryChangeSpec {
    if row.field_name == "created"@ {
        HistoryChangeSpec::Created
    } else if row.field_name == "deleted"@ {
        HistoryChangeSpec::Deleted {
            label: if row.new_value.len() == 0 {
                deleted_label_of(row.change_line)
            } else {
                row.new_value
            },
        }
    } else {
        HistoryChangeSpec::FieldDiff {
            field: row.field_name,
            old_value: row.old_value,
            new_value: row.new_value,
        }
    }
}

/// The timeline entry for a DTO row.
pub open spec fn entry_of(row: HistoryRowSpec) -> HistoryEntrySpec {
    HistoryEntrySpec {
        id: row.row_id,
        kind: row.kind,
        changed_at: rfc3339_or_epoch(row.changed_at),
        actor: actor_of(row.actor_label, row.actor_href),
        change: change_of(row),
    }
}

/// A `deleted "v"` line gives back `v`, whatever `v` holds.
pub proof fn lemma_deleted_label_of_quoted(v: Seq<char>)
    ensures
        deleted_label_of("deleted \""@ + v + "\""@) == v,
{
    reveal_strlit("deleted \"");
    reveal_strlit("deleted ");
    reveal_strlit("\"");
    let line = "deleted \""@ + v + "\""@;
    assert(line.take("deleted "@.len() as int) =~= "deleted "@);
    let body = line.skip("deleted "@.len() as int);
    assert(body =~= "\""@ + v + "\""@);
    assert(body[0] == '"');
    assert(body.last() == '"');
    assert(!crate::text::is_unicode_whitespace(body[0]));
    assert(!crate::text::is_unicode_whitespace(body.last()));
    assert(crate::text::trim_start_ws(body) == body);
    assert(crate::text::trim_end_ws(body) == body);
    assert(body.take(1) =~= "\""@);
    assert(body.skip(1).skip(body.skip(1).len() - 1) =~= "\""@);
    assert(body.subrange(1, body.len() - 1) =~= v);
}

/// The bare user id of a `/user/{id}` link.
pub fn user_id_from_href(href: &str) -> (r: Option<String>)
    ensures
        opt_text(r) == user_id_of_href(href@),
{
    let rest = match strip_prefix_text(href, "/user/") {
        Some(rest) => rest,
        None => {
            return None;
        },
    };
    if rest.is_empty() || crate::text::contains_text(rest, "/") {
        proof {
            if rest@.len() > 0 && crate::text::has_infix(rest@, "/"@) {
                reveal_strlit("/");
                let i = choose|i: int|
                    0 <= i && i + "/"@.len() <= rest@.len() && #[trigger] rest@.subrange(
                        i,
                        i + "/"@.len(),
                    ) == "/"@;
                assert(rest@[i] == rest@.subrange(i, i + 1)[0]);
            }
        }
        return None;
    }
    proof {
        reveal_strlit("/");
        if rest@.contains('/') {
            let i = choose|i: int| 0 <= i < rest@.len() && rest@[i] == '/';
            assert(rest@.subrange(i, i + 1) =~= "/"@);
        }
    }
    Some(rest.to_owned())
}

/// The timeline actor for a DTO's actor label and link.
pub fn map_actor(actor_label: &str, actor_href: Option<String>) -> (r: HistoryActor)
    ensures
        r@ == actor_of(actor_label@, opt_text(actor_href)),
{
    if same_text(actor_label, "System") {
        return HistoryActor::System;
    }
    let id = match &actor_href {
        Some(h) => match user_id_from_href(h.as_str()) {
            Some(id) => id,
            None => String::from_str("unknown"),
        },
        None => String::from_str("unknown"),
    };
    HistoryActor::User { id, display_name: actor_label.to_owned(), href: actor_href }
}

/// The label of a `deleted "label"` change line.
pub fn deleted_label(change_line: &str) -> (r: String)
    ensures
        r@ == deleted_label_of(change_line@),
{
    let body = match strip_prefix_text(change_line, "deleted ") {
        Some(rest) => rest,
        None => change_line,
    };
    let trimmed = trim_text(body);
    let unquoted = match strip_prefix_text(trimmed, "\"") {
        Some(inner) => match strip_suffix_text(inner, "\"") {
            Some(core) => core,
            None => trimmed,
        },
        None => trimmed,
    };
    proof {
        reveal_strlit("\"");
        if has_prefix(trimmed@, "\""@) && has_suffix(trimmed@.skip(1), "\""@) {
            assert(trimmed@.skip(1).take(trimmed@.skip(1).len() - 1) =~= trimmed@.subrange(
                1,
                trimmed@.len() - 1,
            ));
        }
    }
    unquoted.to_owned()
}

/// The timeline change for a DTO row.
pub fn map_change(row: &HistoryRowView) -> (r: HistoryChange)
    ensures
        r@ == change_of(row@),
{
    if same_text(row.field_name.as_str(), "created") {
        HistoryChange::Created
    } else if same_text(row.field_name.as_str(), "deleted") {
        let label = if row.new_value.as_str().is_empty() {
            deleted_label(row.change_line.as_str())
        } else {
            row.new_value.clone()
        };
        HistoryChange::Deleted { label }
    } else {
        HistoryChange::FieldDiff {
            field: row.field_name.clone(),
            old_value: row.old_value.clone(),
            new_value: row.new_value.clone(),
        }
    }
}

/// Convert a page DTO row into a timeline entry.
pub fn history_row_view_to_entry(row: HistoryRowView) -> (entry: HistoryEntry)
    ensures
        entry@ == entry_of(row@),
{
    let changed_at = parse_rfc3339_or_epoch(row.changed_at.as_str());
    let change = map_change(&row);
    let actor = map_actor(row.actor_label.as_str(), row.actor_href);
    HistoryEntry { id: row.row_id, kind: row.kind, changed_at, actor, change }
}

/// Map a page of DTO rows onto timeline entries, preserving paging metadata.
pub fn map_history_page(page: Page<HistoryRowView>) -> (r: Page<HistoryEntry>)
    ensures
        r.items@.len() == page.items@.len(),
        forall|i: int|
            0 <= i < page.items@.len() ==> #[trigger] r.items@[i]@ == entry_of(page.items@[i]@),
        r.has_more == page.has_more,
        r.total_count == page.total_count,
        r.next_request_offset == page.next_request_offset,
{
    let ghost rows = page.items@;
    let mut items: Vec<HistoryEntry> = Vec::new();
    for row in it: page.items
        invariant
            rows == it.seq(),
            items@.len() == it.index(),
            forall|i: int|
                0 <= i < it.index() ==> #[trigger] items@[i]@ == entry_of(rows[i]@),
    {
        items.push(history_row_view_to_entry(row));
    }
    Page {
        items,
        has_more: page.has_more,
        total_count: page.total_count,
        next_request_offset: page.next_request_offset,
    }
}

} // verus!
