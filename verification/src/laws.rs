//! Properties of the library that span several functions or every input.

use vstd::prelude::*;

use crate::actor::{profile_href, safe_user_path_segment, is_user_path_char};
use crate::authorize::{authorization_outcome, source_table_outcome, ParentLookup, ReadCheck};
use crate::entry::{
    actor_of, deleted_label_of, entry_of, lemma_deleted_label_of_quoted, user_id_of_href,
    HistoryChangeSpec,
};
use crate::format::{change_line, display_value, DISPLAY_VALUE_MAX_LEN};
use crate::row_view::row_view_of;
use crate::error::{
    history_error_message, HistoryAccessDeniedReason, HistoryError, HISTORY_ACCESS_DENIED,
};
use crate::model::RecordHistoryModel;
use crate::order::{
    insert_newest, lemma_filter_keeps_order, lemma_newest_first_sorts, lemma_newest_insert_pos,
    lemma_subrange_keeps_order, newer, newest_first, newest_first_ordered, newest_insert_pos,
};
use crate::page::{
    clamped_limit, clamped_offset, listed_history, of_kinds,
    page_error_message, row_kind_listed, rows_of_kinds, sanitized_kinds, window,
    capped_names, kept_kind_names, non_empty_names, shortened_names, HistoryPageError,
    MAX_HISTORY_SCAN, MAX_KIND_FILTER_LEN, MAX_KIND_NAME_CHARS,
};
use crate::page::{
    is_assembled_page, page_error_of, HistoryPageWindow, Page, AUTHENTICATION_REQUIRED,
    HISTORY_LOAD_FAILED, MAX_HISTORY_PAGE_LIMIT, MAX_HISTORY_PAGE_OFFSET,
};
use crate::text::{first_chars, has_infix, listed};
use crate::timeline::{banners_for_message, TimelineBanners};

verus! {

/// Every access denial, whatever its reason, shows the same message, which is
/// also what the timeline page shows for a denial; clients cannot tell a
/// missing, an unsupported and a forbidden source apart.
pub proof fn law_access_denials_indistinguishable(
    a: HistoryAccessDeniedReason,
    b: HistoryAccessDeniedReason,
)
    ensures
        history_error_message(HistoryError::AccessDenied { reason: a }) == history_error_message(
            HistoryError::AccessDenied { reason: b },
        ),
        history_error_message(HistoryError::AccessDenied { reason: a }) == HISTORY_ACCESS_DENIED@,
        page_error_message(HistoryPageError::AccessDenied) == HISTORY_ACCESS_DENIED@,
{
}

/// Authorization fails closed: it succeeds only when the source table is a
/// registered `HistorySource` with a schema, the parent row exists, and the
/// actor passes the parent's Read policy. A missing row, an unsupported table
/// or a Read denial is always an access denial, never a success.
pub proof fn law_authorization_fails_closed(
    table_is_history_source: bool,
    schema_registered: bool,
    lookup: ParentLookup,
    check: ReadCheck,
)
    ensures
        authorization_outcome(table_is_history_source, schema_registered, lookup, check) is Ok
            <==> (table_is_history_source && schema_registered && lookup == ParentLookup::Found
            && check == ReadCheck::Allowed),
        (!table_is_history_source || !schema_registered || lookup == ParentLookup::Missing || (
        lookup == ParentLookup::Found && check == ReadCheck::PrivacyDenied)) ==> authorization_outcome(
            table_is_history_source,
            schema_registered,
            lookup,
            check,
        ) is Err && authorization_outcome(
            table_is_history_source,
            schema_registered,
            lookup,
            check,
        )->Err_0 is AccessDenied,
{
}

/// Page arguments are always brought into range, and clamping twice changes
/// nothing: `1 <= limit <= 50`, `offset <= 10_000`, in-range values kept.
pub proof fn law_page_arguments_clamped(limit: int, offset: int)
    requires
        0 <= offset,
    ensures
        1 <= clamped_limit(limit) <= 50,
        clamped_limit(clamped_limit(limit)) == clamped_limit(limit),
        1 <= limit <= 50 ==> clamped_limit(limit) == limit,
        0 <= clamped_offset(offset) <= 10_000,
        clamped_offset(clamped_offset(offset)) == clamped_offset(offset),
        offset <= 10_000 ==> clamped_offset(offset) == offset,
{
}

/// The server's profile link for a safe user id is read back by the client
/// as that same id.
pub proof fn law_profile_href_round_trip(id: Seq<char>)
    requires
        safe_user_path_segment(id),
    ensures
        user_id_of_href(profile_href(id)) == Some(id),
{
    reveal_strlit("/user/");
    let href = profile_href(id);
    assert(href.take("/user/"@.len() as int) =~= "/user/"@);
    assert(href.skip("/user/"@.len() as int) =~= id);
    if id.contains('/') {
        let i = choose|i: int| 0 <= i < id.len() && id[i] == '/';
        assert(is_user_path_char(id[i]));
    }
}

/// Ordering a source's history newest first neither drops nor adds rows, and
/// no row is followed by a strictly newer one.
pub proof fn law_newest_first_is_an_ordering(rows: Seq<RecordHistoryModel>)
    ensures
        newest_first_ordered(newest_first(rows)),
        newest_first(rows).to_multiset() == rows.to_multiset(),
{
    lemma_newest_first_sorts(rows);
}

/// The list pages are cut from is newest first, holds at most
/// `MAX_HISTORY_SCAN` rows, holds only rows of the source, and with a kind
/// filter only rows of those kinds; every page of it is newest first and
/// holds at most the requested count.
pub proof fn law_listed_history_shape(
    rows: Seq<RecordHistoryModel>,
    kinds: Option<Seq<Seq<char>>>,
    offset: int,
    count: int,
)
    requires
        0 <= offset,
        0 <= count,
    ensures
        newest_first_ordered(listed_history(rows, kinds)),
        listed_history(rows, kinds).len() <= MAX_HISTORY_SCAN,
        forall|i: int|
            0 <= i < listed_history(rows, kinds).len() ==> rows.contains(
                #[trigger] listed_history(rows, kinds)[i],
            ),
        sanitized_kinds(kinds) matches Some(ks) ==> forall|i: int|
            0 <= i < listed_history(rows, kinds).len() ==> row_kind_listed(
                #[trigger] listed_history(rows, kinds)[i],
                ks,
            ),
        newest_first_ordered(window(listed_history(rows, kinds), offset, count)),
        window(listed_history(rows, kinds), offset, count).len() <= count,
{
    broadcast use vstd::seq_lib::group_to_multiset_ensures;

    let sorted = newest_first(rows);
    lemma_newest_first_sorts(rows);
    let matching = rows_of_kinds(sorted, sanitized_kinds(kinds));
    match sanitized_kinds(kinds) {
        Some(ks) => {
            lemma_filter_keeps_order(sorted, of_kinds(ks));
            sorted.lemma_filter_len(of_kinds(ks));
        },
        None => {},
    }
    let listed = listed_history(rows, kinds);
    lemma_subrange_keeps_order(matching, 0, listed.len() as int);
    assert(listed =~= matching.subrange(0, listed.len() as int));
    assert forall|i: int| 0 <= i < listed.len() implies rows.contains(#[trigger] listed[i]) by {
        assert(matching[i] == listed[i]);
        match sanitized_kinds(kinds) {
            Some(ks) => {
                assert(matching.contains(listed[i]));
                sorted.lemma_filter_contains_rev(of_kinds(ks), listed[i]);
            },
            None => {
                assert(sorted.contains(listed[i]));
            },
        }
        assert(sorted.to_multiset().count(listed[i]) > 0);
    }
    if let Some(ks) = sanitized_kinds(kinds) {
        assert forall|i: int| 0 <= i < listed.len() implies row_kind_listed(
            #[trigger] listed[i],
            ks,
        ) by {
            assert(matching[i] == listed[i]);
            sorted.lemma_filter_pred(of_kinds(ks), i);
        }
    }
    let from = if offset <= listed.len() { offset } else { listed.len() as int };
    let to = if offset + count <= listed.len() { offset + count } else { listed.len() as int };
    lemma_subrange_keeps_order(listed, from, to);
}

/// A planned window of `limit + 1` rows, cut to `limit` items, is exactly the
/// next `limit` rows of the list; and "more rows follow" (the extra row was
/// fetched, or the items end before the list does) holds exactly when rows of
/// the list come after the returned items.
pub proof fn law_page_window_and_has_more(listed: Seq<RecordHistoryModel>, offset: int, limit: int)
    requires
        0 <= offset,
        1 <= limit,
    ensures
        ({
            let fetched = window(listed, offset, limit + 1);
            let items = if fetched.len() <= limit {
                fetched
            } else {
                fetched.take(limit)
            };
            &&& items == window(listed, offset, limit)
            &&& (fetched.len() > limit || offset + items.len() < listed.len()) <==> offset
                + items.len() < listed.len()
        }),
{
    let fetched = window(listed, offset, limit + 1);
    let items = if fetched.len() <= limit {
        fetched
    } else {
        fetched.take(limit)
    };
    assert(items =~= window(listed, offset, limit));
}

/// Consecutive pages neither skip nor repeat a row. An assembled page's next
/// request offset is its clamped offset plus the items it shows; the rows it
/// shows, followed by the rows a request at that offset fetches, are one
/// unbroken run of the listed history; "more rows follow" holds exactly when
/// the listed history goes on after the last shown row; and the next request
/// keeps that offset as long as it is within `MAX_HISTORY_PAGE_OFFSET`.
pub proof fn law_next_page_continues<T>(
    listed: Seq<RecordHistoryModel>,
    w: HistoryPageWindow,
    items: Seq<T>,
    p: Page<T>,
    next_count: int,
)
    requires
        0 <= w.spec_offset() <= MAX_HISTORY_PAGE_OFFSET,
        1 <= w.spec_limit() <= MAX_HISTORY_PAGE_LIMIT,
        w.spec_total_rows() == listed.len(),
        w.spec_fetched() == window(listed, w.spec_offset(), w.spec_limit() + 1).len(),
        items.len() == w.spec_fetched(),
        is_assembled_page(w, items, p),
        0 <= next_count,
    ensures
        ({
            let o = w.spec_offset();
            let n = o + p.items@.len();
            let shown = window(listed, o, w.spec_limit() + 1).take(p.items@.len() as int);
            &&& p.next_request_offset matches Some(x) && x == n
            &&& shown + window(listed, n, next_count) == window(
                listed,
                o,
                p.items@.len() + next_count,
            )
            &&& p.has_more <==> n < listed.len()
            &&& n <= MAX_HISTORY_PAGE_OFFSET ==> clamped_offset(n) == n
        }),
{
    let o = w.spec_offset();
    let l = w.spec_limit();
    let k = p.items@.len() as int;
    let n = o + k;
    let fetched = window(listed, o, l + 1);
    assert(k <= l);
    assert((n as u32) as int == n);
    if o <= listed.len() {
        assert(fetched =~= listed.subrange(o, if o + l + 1 <= listed.len() {
            o + l + 1
        } else {
            listed.len() as int
        }));
        assert(fetched.take(k) =~= listed.subrange(o, n));
        assert(listed.subrange(o, n) + window(listed, n, next_count) =~= window(listed, o, k + next_count));
    } else {
        assert(fetched.take(k) =~= Seq::<RecordHistoryModel>::empty());
        assert(window(listed, n, next_count) =~= Seq::<RecordHistoryModel>::empty());
        assert(window(listed, o, k + next_count) =~= Seq::<RecordHistoryModel>::empty());
    }
}

/// A page request answers every access denial alike, whichever gate refused
/// (the table gate at [`crate::page_request::PageRequest::start`], the parent
/// load or the Read policy at a read step, both of which map a read failure
/// through [`page_error_of`]): the same page error, with the message
/// [`HISTORY_ACCESS_DENIED`].
pub proof fn law_page_denials_indistinguishable(
    a: HistoryAccessDeniedReason,
    b: HistoryAccessDeniedReason,
)
    ensures
        page_error_of(HistoryError::AccessDenied { reason: a }) == page_error_of(
            HistoryError::AccessDenied { reason: b },
        ),
        page_error_of(HistoryError::AccessDenied { reason: a }) == HistoryPageError::AccessDenied,
        page_error_message(page_error_of(HistoryError::AccessDenied { reason: a }))
            == HISTORY_ACCESS_DENIED@,
{
}

proof fn lemma_filter_keeps_all<A>(s: Seq<A>, pred: spec_fn(A) -> bool)
    requires
        forall|i: int| 0 <= i < s.len() ==> pred(#[trigger] s[i]),
    ensures
        s.filter(pred) == s,
    decreases s.len(),
{
    reveal(Seq::filter);
    if s.len() > 0 {
        let rest = s.drop_last();
        assert forall|i: int| 0 <= i < rest.len() implies pred(#[trigger] rest[i]) by {
            assert(rest[i] == s[i]);
        }
        lemma_filter_keeps_all(rest, pred);
        assert(rest.push(s.last()) =~= s);
    }
}

/// The names a sanitized kind filter keeps are between 1 and
/// `MAX_KIND_FILTER_LEN` non-empty names of at most `MAX_KIND_NAME_CHARS`
/// characters, and sanitizing an already sanitized filter changes nothing.
pub proof fn law_kind_filter_sanitizing(kinds: Option<Seq<Seq<char>>>)
    ensures
        sanitized_kinds(sanitized_kinds(kinds)) == sanitized_kinds(kinds),
        sanitized_kinds(kinds) matches Some(ks) ==> {
            &&& 1 <= ks.len() <= MAX_KIND_FILTER_LEN
            &&& forall|i: int|
                0 <= i < ks.len() ==> 1 <= (#[trigger] ks[i]).len() <= MAX_KIND_NAME_CHARS
        },
{
    if let Some(names) = kinds {
        let ne = non_empty_names(names);
        #[allow(deprecated)]
        names.filter_lemma(|k: Seq<char>| k.len() > 0);
        let capped = capped_names(ne);
        assert forall|i: int| 0 <= i < capped.len() implies (#[trigger] capped[i]).len() > 0 by {
            assert(capped[i] == ne[i]);
        }
        let kept = kept_kind_names(names);
        assert(kept.len() == capped.len());
        assert forall|i: int| 0 <= i < kept.len() implies 1 <= (#[trigger] kept[i]).len()
            <= MAX_KIND_NAME_CHARS by {
            assert(kept[i] == first_chars(capped[i], MAX_KIND_NAME_CHARS as nat));
        }
        if kept.len() > 0 {
            lemma_filter_keeps_all(kept, |k: Seq<char>| k.len() > 0);
            assert(non_empty_names(kept) == kept);
            assert(capped_names(kept) == kept);
            assert(shortened_names(kept) =~= kept);
            assert(kept_kind_names(kept) == kept);
        }
    }
}

/// The timeline entry the client builds from the server's page row carries the
/// stored row's identity and raw audit values: its id and kind are the row
/// id's key and table; `created` rows become `Created`; `deleted` rows become
/// `Deleted` labelled with the stored new value (recovered from the change
/// line when that value is empty); every other row becomes a field diff of the
/// untruncated old and new values; the actor follows the resolved label and
/// link.
pub proof fn law_timeline_entry_of_row(
    m: RecordHistoryModel,
    actor_label: Seq<char>,
    actor_href: Option<Seq<char>>,
)
    requires
        m.id is Some,
    ensures
        ({
            let e = entry_of(row_view_of(m, actor_label, actor_href));
            &&& e.id == m.id->0.id@
            &&& e.kind == m.id->0.table@
            &&& e.actor == actor_of(actor_label, actor_href)
            &&& e.change == (if m.field_name@ == "created"@ {
                HistoryChangeSpec::Created
            } else if m.field_name@ == "deleted"@ {
                HistoryChangeSpec::Deleted { label: m.new_value@ }
            } else {
                HistoryChangeSpec::FieldDiff {
                    field: m.field_name@,
                    old_value: m.old_value@,
                    new_value: m.new_value@,
                }
            })
        }),
{
    if m.field_name@ == "deleted"@ && m.new_value@.len() == 0 {
        assert(display_value(m.new_value@) == m.new_value@);
        lemma_deleted_label_of_quoted(m.new_value@);
    }
}

/// A deletion's change line gives back its label (up to the display length)
/// when the client recovers the label from the line.
pub proof fn law_deleted_label_round_trip(old: Seq<char>, label: Seq<char>)
    requires
        label.len() <= DISPLAY_VALUE_MAX_LEN,
    ensures
        deleted_label_of(change_line("deleted"@, old, label)) == label,
{
    reveal_strlit("deleted");
    reveal_strlit("created");
    assert("deleted"@[0] != "created"@[0]);
    assert(display_value(label) == label);
    lemma_deleted_label_of_quoted(label);
}

/// The write helpers and the line formatter agree: each helper's payload
/// formats as the line the format table promises for its kind of event
/// (`field` not a lifecycle name, `target`, `old`, `new` non-empty).
pub proof fn law_write_helpers_format(
    field: Seq<char>,
    old: Seq<char>,
    new: Seq<char>,
    target: Seq<char>,
    label: Seq<char>,
)
    requires
        field != "created"@,
        field != "deleted"@,
        old.len() != 0,
        new.len() != 0,
        target.len() != 0,
    ensures
        change_line(field, old, new) == "changed "@ + field + " from \""@ + display_value(old)
            + "\" to \""@ + display_value(new) + "\""@,
        change_line(field, Seq::<char>::empty(), target) == "added "@ + field + ": \""@
            + display_value(target) + "\""@,
        change_line(field, target, Seq::<char>::empty()) == "removed "@ + field + ": \""@
            + display_value(target) + "\""@,
        change_line("created"@, Seq::<char>::empty(), label) == "created"@,
        change_line("deleted"@, Seq::<char>::empty(), label) == "deleted \""@ + display_value(
            label,
        ) + "\""@,
{
    reveal_strlit("deleted");
    reveal_strlit("created");
    assert("deleted"@[0] != "created"@[0]);
}

/// The predicate "row changed at instant `t`".
pub open spec fn changed_at_is(t: (int, int)) -> spec_fn(RecordHistoryModel) -> bool {
    |r: RecordHistoryModel| r.changed_at@ == t
}

/// Ordering newest first is stable: the rows that changed at any one instant
/// keep their input order.
pub proof fn law_newest_first_is_stable(rows: Seq<RecordHistoryModel>, t: (int, int))
    ensures
        newest_first(rows).filter(changed_at_is(t)) == rows.filter(changed_at_is(t)),
    decreases rows.len(), 1int,
{
    let pred = changed_at_is(t);
    if rows.len() > 0 {
        let rest = rows.drop_last();
        let x = rows.last();
        law_newest_first_stable_step(rest, x, t);
        assert(rows =~= rest.push(x));
        rest.lemma_filter_push(x, pred);
    }
}

proof fn law_newest_first_stable_step(rest: Seq<RecordHistoryModel>, x: RecordHistoryModel, t: (
    int,
    int,
))
    ensures
        insert_newest(newest_first(rest), x).filter(changed_at_is(t)) == if x.changed_at@ == t {
            rest.filter(changed_at_is(t)).push(x)
        } else {
            rest.filter(changed_at_is(t))
        },
    decreases rest.len() + 1, 0int,
{
    let pred = changed_at_is(t);
    law_newest_first_is_stable(rest, t);
    let r = newest_first(rest);
    lemma_newest_first_sorts(rest);
    lemma_newest_insert_pos(r, x);
    let p = newest_insert_pos(r, x);
    let head = r.take(p);
    let tail = r.skip(p);
    assert(r =~= head + tail);
    Seq::filter_distributes_over_add(head, tail, pred);
    assert(r.insert(p, x) =~= head + seq![x] + tail);
    Seq::filter_distributes_over_add(head + seq![x], tail, pred);
    Seq::filter_distributes_over_add(head, seq![x], pred);
    reveal_with_fuel(Seq::filter, 2);
    assert(seq![x].drop_last() =~= Seq::<RecordHistoryModel>::empty());
    if x.changed_at@ == t {
        assert forall|k: int| 0 <= k < tail.len() implies !pred(#[trigger] tail[k]) by {
            assert(tail[k] == r[p + k]);
            if k > 0 {
                assert(!newer(r[p + k], r[p]));
            }
        }
        tail.lemma_all_neg_filter_empty(pred);
        assert(head.filter(pred) + tail.filter(pred) =~= head.filter(pred));
        assert(seq![x].filter(pred) =~= seq![x]);
    } else {
        assert(seq![x].filter(pred) =~= Seq::<RecordHistoryModel>::empty());
    }
}

/// A failed page request shows exactly one banner: the access-denied banner
/// for an access denial or a missing session, the load-failure banner for
/// every other failure.
pub proof fn law_timeline_banner_of_failure(e: HistoryPageError)
    ensures
        banners_for_message(page_error_message(e)) == (TimelineBanners {
            access_denied: !(e is LoadFailed),
            load_failed: e is LoadFailed,
        }),
{
    let denied = "Not authorized"@;
    let unauthenticated = "Authentication required"@;
    reveal_strlit("Not authorized");
    reveal_strlit("Authentication required");
    reveal_strlit("Not authorized to view this history");
    reveal_strlit("Failed to load record history");
    match e {
        HistoryPageError::AccessDenied => {
            assert(HISTORY_ACCESS_DENIED@.subrange(0, 0int + denied.len()) =~= denied);
        },
        HistoryPageError::AuthenticationRequired => {
            assert(AUTHENTICATION_REQUIRED@.subrange(0, 0int + unauthenticated.len())
                =~= unauthenticated);
        },
        HistoryPageError::LoadFailed => {
            let m = HISTORY_LOAD_FAILED@;
            assert forall|i: int| 0 <= i < m.len() implies m[i] != 'N' && m[i] != 'A' by {
                assert(m[i] != 'N');
                assert(m[i] != 'A');
            }
            assert forall|i: int| 0 <= i && i + denied.len() <= m.len() implies #[trigger] m.subrange(
                i,
                i + denied.len(),
            ) != denied by {
                assert(m.subrange(i, i + denied.len())[0] == m[i]);
            }
            assert forall|i: int|
                0 <= i && i + unauthenticated.len() <= m.len() implies #[trigger] m.subrange(
                i,
                i + unauthenticated.len(),
            ) != unauthenticated by {
                assert(m.subrange(i, i + unauthenticated.len())[0] == m[i]);
            }
        },
    }
}

/// A history row passes a kind filter exactly when it has an id whose table
/// equals one of the filter's names, whichever position that name has.
pub proof fn law_kind_filter_matches_any_name(row: RecordHistoryModel, kinds: Seq<Seq<char>>)
    ensures
        row_kind_listed(row, kinds) <==> (row.id is Some && exists|j: int|
            0 <= j < kinds.len() && #[trigger] kinds[j] == row.id->0.table@),
        forall|j: int|
            0 <= j < kinds.len() && row.id is Some && #[trigger] kinds[j] == row.id->0.table@
                ==> row_kind_listed(row, kinds),
{
}

/// Narrowing rows to a kind filter keeps every row whose id's table is any of
/// the filter's names, and keeps nothing else.
pub proof fn law_rows_of_kinds_keeps_every_named_kind(
    rows: Seq<RecordHistoryModel>,
    kinds: Seq<Seq<char>>,
)
    ensures
        forall|i: int|
            0 <= i < rows.len() && rows[i].id is Some && kinds.contains(rows[i].id->0.table@)
                ==> rows_of_kinds(rows, Some(kinds)).contains(#[trigger] rows[i]),
        forall|r: RecordHistoryModel|
            #[trigger] rows_of_kinds(rows, Some(kinds)).contains(r) ==> rows.contains(r)
                && r.id is Some && kinds.contains(r.id->0.table@),
{
    let pred = of_kinds(kinds);
    rows.filter_lemma(pred);
    let kept = rows.filter(pred);
    assert forall|i: int|
        0 <= i < rows.len() && rows[i].id is Some && kinds.contains(rows[i].id->0.table@)
            implies rows_of_kinds(rows, Some(kinds)).contains(#[trigger] rows[i]) by {
        assert(pred(rows[i]));
    }
    assert forall|r: RecordHistoryModel|
        #[trigger] rows_of_kinds(rows, Some(kinds)).contains(r) implies rows.contains(r)
            && r.id is Some && kinds.contains(r.id->0.table@) by {
        let k = choose|k: int| 0 <= k < kept.len() && kept[k] == r;
        assert(pred(kept[k]));
        lemma_filter_member_in_source(rows, pred, k);
    }
}

proof fn lemma_filter_member_in_source<A>(s: Seq<A>, pred: spec_fn(A) -> bool, k: int)
    requires
        0 <= k < s.filter(pred).len(),
    ensures
        s.contains(s.filter(pred)[k]),
    decreases s.len(),
{
    reveal(Seq::filter);
    if s.len() > 0 {
        let rest = s.drop_last();
        if k < rest.filter(pred).len() {
            lemma_filter_member_in_source(rest, pred, k);
            let j = choose|j: int| 0 <= j < rest.len() && rest[j] == rest.filter(pred)[k];
            assert(s[j] == rest[j]);
            assert(s.filter(pred) == if pred(s.last()) {
                rest.filter(pred).push(s.last())
            } else {
                rest.filter(pred)
            });
            assert(s.filter(pred)[k] == rest.filter(pred)[k]);
        } else {
            assert(s.filter(pred) == if pred(s.last()) {
                rest.filter(pred).push(s.last())
            } else {
                rest.filter(pred)
            });
            assert(s.filter(pred)[k] == s.last());
            assert(s[s.len() - 1] == s.last());
        }
    }
}

/// Profile links: a non-empty id without `://` whose characters are all ASCII
/// letters of either case, digits, `-`, `_` or `.` is a safe path segment and
/// links to `/user/{id}`; an id holding any other character (`/`, `\`, `?`,
/// `#`, whitespace, …), an empty id, or one holding `://` is not safe.
pub proof fn law_safe_user_ids(id: Seq<char>)
    ensures
        safe_user_path_segment(id) <==> {
            &&& id.len() > 0
            &&& !has_infix(id, "://"@)
            &&& forall|i: int|
                0 <= i < id.len() ==> {
                    let c = #[trigger] id[i];
                    ||| ('a' <= c && c <= 'z')
                    ||| ('A' <= c && c <= 'Z')
                    ||| ('0' <= c && c <= '9')
                    ||| c == '-'
                    ||| c == '_'
                    ||| c == '.'
                }
        },
        profile_href(id) == "/user/"@ + id,
{
}

/// A text is listed when it equals an entry of the list, at any position:
/// every entry is listed, and a text is listed exactly when the list's texts
/// contain it.
pub proof fn law_listed_any_position(list: Seq<String>, t: Seq<char>)
    ensures
        forall|i: int| 0 <= i < list.len() ==> listed(list, #[trigger] list[i]@),
        listed(list, t) <==> list.map_values(|s: String| s@).contains(t),
{
    let texts = list.map_values(|s: String| s@);
    if listed(list, t) {
        let i = choose|i: int| 0 <= i < list.len() && #[trigger] list[i]@ == t;
        assert(texts[i] == t);
    }
    if texts.contains(t) {
        let i = choose|i: int| 0 <= i < texts.len() && texts[i] == t;
        assert(list[i]@ == t);
    }
}

/// The `HistorySource` table gate accepts a source (with a schema) whose table
/// is any of the registered tables, wherever it stands in the registry, and
/// refuses one whose table is none of them as unsupported.
pub proof fn law_table_gate_accepts_every_registered_table(tables: Seq<String>, table: Seq<char>)
    ensures
        forall|i: int|
            0 <= i < tables.len() && #[trigger] tables[i]@ == table ==> source_table_outcome(
                listed(tables, table),
                true,
            ) == Ok::<(), HistoryError>(()),
        (forall|i: int| 0 <= i < tables.len() ==> #[trigger] tables[i]@ != table)
            ==> source_table_outcome(listed(tables, table), true) == Err::<(), HistoryError>(
            HistoryError::AccessDenied { reason: HistoryAccessDeniedReason::UnsupportedSource },
        ),
{
}

/// A needle occurs in any text built around it.
pub proof fn law_has_infix_around(p: Seq<char>, n: Seq<char>, q: Seq<char>)
    ensures
        has_infix(p + n + q, n),
{
    let s = p + n + q;
    assert(s.subrange(p.len() as int, p.len() as int + n.len()) =~= n);
}

/// A text holds a needle only where the needle sits between a prefix and a
/// suffix of it.
pub proof fn law_has_infix_splits(s: Seq<char>, n: Seq<char>)
    ensures
        has_infix(s, n) ==> exists|i: int|
            0 <= i && i + n.len() <= s.len() && s == #[trigger] s.take(i) + n + s.skip(
                i + n.len(),
            ),
{
    if has_infix(s, n) {
        let i = choose|i: int|
            0 <= i && i + n.len() <= s.len() && #[trigger] s.subrange(i, i + n.len()) == n;
        assert(s =~= s.take(i) + n + s.skip(i + n.len()));
    }
}

/// The timeline's error banner follows the two phrases: a message holding
/// "Not authorized" or "Authentication required" (anywhere) shows only the
/// access-denied banner; a message holding neither (whatever else it says,
/// such as a load failure wrapped in other text) shows only the load-failure
/// banner; exactly one banner is up for every message.
pub proof fn law_banner_follows_the_phrases(p: Seq<char>, q: Seq<char>, m: Seq<char>)
    ensures
        banners_for_message(p + "Not authorized"@ + q) == (TimelineBanners {
            access_denied: true,
            load_failed: false,
        }),
        banners_for_message(p + "Authentication required"@ + q) == (TimelineBanners {
            access_denied: true,
            load_failed: false,
        }),
        !has_infix(m, "Not authorized"@) && !has_infix(m, "Authentication required"@)
            ==> banners_for_message(m) == (TimelineBanners {
            access_denied: false,
            load_failed: true,
        }),
        banners_for_message(m).access_denied != banners_for_message(m).load_failed,
{
    law_has_infix_around(p, "Not authorized"@, q);
    law_has_infix_around(p, "Authentication required"@, q);
}

} // verus!
