//! Paging of a source's history for the timeline: client page arguments are
//! sanitized, rows are ordered newest first, narrowed to the requested kinds,
//! capped, and cut into a window; the page metadata is computed from that.
//!
//! The session check, the authorized load of the rows and the per-row actor
//! resolution are outside steps; their results are handed to the functions
//! here.

use vstd::prelude::*;

use crate::error::{HistoryError, HISTORY_ACCESS_DENIED};
use crate::model::RecordHistoryModel;
use crate::order::{newest_first, sort_newest_first};
use crate::record_id::history_row_identity;
use crate::text::{contains_text, first_chars, has_infix, take_chars, text_in_list};

verus! {

/// Maximum page size accepted from a client (above the timeline page size).
pub const MAX_HISTORY_PAGE_LIMIT: u32 = 50;

/// Maximum zero-based `offset` accepted from a client.
pub const MAX_HISTORY_PAGE_OFFSET: u32 = 10_000;

/// Hard cap on rows kept after ordering and kind filtering.
pub const MAX_HISTORY_SCAN: u32 = 10_000;

/// Maximum number of kind-filter table names accepted from a client.
pub const MAX_KIND_FILTER_LEN: usize = 32;

/// Maximum characters kept of each kind-filter table name.
pub const MAX_KIND_NAME_CHARS: usize = 128;

/// Client-visible message when no session is present.
pub const AUTHENTICATION_REQUIRED: &'static str = "Authentication required";

/// Client-visible message for every internal load failure.
pub const HISTORY_LOAD_FAILED: &'static str = "Failed to load record history";

/// `limit` clamped into `1..=MAX_HISTORY_PAGE_LIMIT`.
pub open spec fn clamped_limit(limit: int) -> int {
    if limit < 1 {
        1
    } else if limit > MAX_HISTORY_PAGE_LIMIT {
        MAX_HISTORY_PAGE_LIMIT as int
    } else {
        limit
    }
}

/// `offset` clamped into `0..=MAX_HISTORY_PAGE_OFFSET`.
pub open spec fn clamped_offset(offset: int) -> int {
    if offset > MAX_HISTORY_PAGE_OFFSET {
        MAX_HISTORY_PAGE_OFFSET as int
    } else {
        offset
    }
}

/// Clamp a client-supplied page `limit` into `1..=MAX_HISTORY_PAGE_LIMIT`.
pub fn clamp_history_page_limit(limit: u32) -> (r: u32)
    ensures
        r == clamped_limit(limit as int),
{
    if limit < 1 {
        1
    } else if limit > MAX_HISTORY_PAGE_LIMIT {
        MAX_HISTORY_PAGE_LIMIT
    } else {
        limit
    }
}

/// Clamp a client-supplied page `offset` into `0..=MAX_HISTORY_PAGE_OFFSET`.
pub fn clamp_history_page_offset(offset: u32) -> (r: u32)
    ensures
        r == clamped_offset(offset as int),
{
    if offset > MAX_HISTORY_PAGE_OFFSET {
        MAX_HISTORY_PAGE_OFFSET
    } else {
        offset
    }
}

/// The texts of a list of strings.
pub open spec fn texts_of(list: Seq<String>) -> Seq<Seq<char>> {
    list.map_values(|k: String| k@)
}

/// The non-empty names.
pub open spec fn non_empty_names(names: Seq<Seq<char>>) -> Seq<Seq<char>> {
    names.filter(|k: Seq<char>| k.len() > 0)
}

/// At most the first `MAX_KIND_FILTER_LEN` names.
pub open spec fn capped_names(names: Seq<Seq<char>>) -> Seq<Seq<char>> {
    if names.len() <= MAX_KIND_FILTER_LEN {
        names
    } else {
        names.take(MAX_KIND_FILTER_LEN as int)
    }
}

/// Each name cut to `MAX_KIND_NAME_CHARS` characters.
pub open spec fn shortened_names(names: Seq<Seq<char>>) -> Seq<Seq<char>> {
    names.map_values(|k: Seq<char>| first_chars(k, MAX_KIND_NAME_CHARS as nat))
}

/// The names a client kind filter keeps: empty names dropped, at most
/// `MAX_KIND_FILTER_LEN` of the rest (first ones first), each cut to
/// `MAX_KIND_NAME_CHARS` characters.
pub open spec fn kept_kind_names(names: Seq<Seq<char>>) -> Seq<Seq<char>> {
    shortened_names(capped_names(non_empty_names(names)))
}

/// The sanitized filter: `None` when nothing is kept.
pub open spec fn sanitized_kinds(kinds: Option<Seq<Seq<char>>>) -> Option<Seq<Seq<char>>> {
    match kinds {
        None => None,
        Some(names) => if kept_kind_names(names).len() == 0 {
            None
        } else {
            Some(kept_kind_names(names))
        },
    }
}

/// The texts of an optional string list.
pub open spec fn opt_texts(kinds: Option<Vec<String>>) -> Option<Seq<Seq<char>>> {
    match kinds {
        None => None,
        Some(v) => Some(texts_of(v@)),
    }
}

proof fn lemma_kept_step(names: Seq<Seq<char>>, x: Seq<char>)
    ensures
        non_empty_names(names.push(x)) == if x.len() > 0 {
            non_empty_names(names).push(x)
        } else {
            non_empty_names(names)
        },
{
    names.lemma_filter_push(x, |k: Seq<char>| k.len() > 0);
}

/// Drop empty names, truncate overlong names, and cap filter cardinality.
pub fn sanitize_kind_filter(kinds: Option<Vec<String>>) -> (r: Option<Vec<String>>)
    ensures
        opt_texts(r) == sanitized_kinds(opt_texts(kinds)),
{
    let kinds = match kinds {
        None => {
            return None;
        },
        Some(k) => k,
    };
    let ghost input = texts_of(kinds@);
    let mut cleaned: Vec<String> = Vec::new();
    for k in it: kinds
        invariant
            input == texts_of(it.seq()),
            texts_of(cleaned@) == shortened_names(
                capped_names(non_empty_names(input.take(it.index() as int))),
            ),
    {
        let ghost i = it.index() as int;
        let ghost before = non_empty_names(input.take(i));
        proof {
            assert(input.take(i + 1) =~= input.take(i).push(input[i]));
            lemma_kept_step(input.take(i), input[i]);
        }
        if !k.as_str().is_empty() && cleaned.len() < MAX_KIND_FILTER_LEN {
            let kept = if k.unicode_len() <= MAX_KIND_NAME_CHARS {
                k
            } else {
                take_chars(k.as_str(), MAX_KIND_NAME_CHARS).to_owned()
            };
            proof {
                assert(kept@ == first_chars(input[i], MAX_KIND_NAME_CHARS as nat));
                assert(texts_of(cleaned@).len() == cleaned@.len());
                assert(shortened_names(capped_names(before)).len() == capped_names(before).len());
                assert(capped_names(before).len() == before.len());
                assert(non_empty_names(input.take(i + 1)) == before.push(input[i]));
                assert(capped_names(before.push(input[i])) == before.push(input[i]));
            }
            let ghost old_cleaned = cleaned@;
            cleaned.push(kept);
            proof {
                let goal = shortened_names(capped_names(non_empty_names(input.take(i + 1))));
                assert(goal == shortened_names(before.push(input[i])));
                assert(texts_of(old_cleaned) == shortened_names(before));
                assert forall|j: int| 0 <= j < cleaned@.len() implies #[trigger] texts_of(
                    cleaned@,
                )[j] == goal[j] by {
                    if j < old_cleaned.len() {
                        assert(cleaned@[j] == old_cleaned[j]);
                        assert(texts_of(old_cleaned)[j] == shortened_names(before)[j]);
                        assert(before.push(input[i])[j] == before[j]);
                    } else {
                        assert(before.push(input[i])[j] == input[i]);
                    }
                }
                assert(texts_of(cleaned@) =~= goal);
            }
        } else {
            proof {
                assert(texts_of(cleaned@) =~= shortened_names(
                    capped_names(non_empty_names(input.take(i + 1))),
                ));
            }
        }
    }
    proof {
        assert(input.take(input.len() as int) =~= input);
    }
    if cleaned.len() == 0 {
        None
    } else {
        Some(cleaned)
    }
}

/// A row is of one of `kinds` when it has an id whose table is listed.
pub open spec fn row_kind_listed(row: RecordHistoryModel, kinds: Seq<Seq<char>>) -> bool {
    match row.id {
        Some(id) => kinds.contains(id.table@),
        None => false,
    }
}

/// Does the row's concrete history kind (its id's table) appear in `kinds`?
/// Rows without an id never match.
pub fn row_kind_matches(row: &RecordHistoryModel, kinds: &Vec<String>) -> (r: bool)
    ensures
        r == row_kind_listed(*row, texts_of(kinds@)),
{
    match &row.id {
        None => false,
        Some(id) => {
            let (kind, _) = history_row_identity(id);
            let found = text_in_list(kinds, kind);
            proof {
                if found {
                    let j = choose|j: int| 0 <= j < kinds@.len() && #[trigger] kinds@[j]@ == kind@;
                    assert(texts_of(kinds@)[j] == kind@);
                }
                if texts_of(kinds@).contains(id.table@) {
                    let j = choose|j: int|
                        0 <= j < texts_of(kinds@).len() && texts_of(kinds@)[j] == id.table@;
                    assert(kinds@[j]@ == kind@);
                }
            }
            found
        },
    }
}

/// The predicate "row is of one of `kinds`".
pub open spec fn of_kinds(kinds: Seq<Seq<char>>) -> spec_fn(RecordHistoryModel) -> bool {
    |r: RecordHistoryModel| row_kind_listed(r, kinds)
}

/// The rows of the listed kinds (all rows when there is no filter), in order.
pub open spec fn rows_of_kinds(rows: Seq<RecordHistoryModel>, kinds: Option<Seq<Seq<char>>>) -> Seq<
    RecordHistoryModel,
> {
    match kinds {
        None => rows,
        Some(ks) => rows.filter(of_kinds(ks)),
    }
}

/// At most the first `MAX_HISTORY_SCAN` rows.
pub open spec fn scan_capped(rows: Seq<RecordHistoryModel>) -> Seq<RecordHistoryModel> {
    if rows.len() <= MAX_HISTORY_SCAN {
        rows
    } else {
        rows.take(MAX_HISTORY_SCAN as int)
    }
}

/// The list a page is cut from: the source's rows newest first, narrowed to
/// the sanitized kinds, capped at `MAX_HISTORY_SCAN`.
pub open spec fn listed_history(rows: Seq<RecordHistoryModel>, kinds: Option<Seq<Seq<char>>>) -> Seq<
    RecordHistoryModel,
> {
    scan_capped(rows_of_kinds(newest_first(rows), sanitized_kinds(kinds)))
}

/// The part of `s` from position `start` holding at most `count` elements.
pub open spec fn window<T>(s: Seq<T>, start: int, count: int) -> Seq<T> {
    let from = if start <= s.len() { start } else { s.len() as int };
    let to = if start + count <= s.len() { start + count } else { s.len() as int };
    s.subrange(from, to)
}

/// Keep the rows of the listed kinds, in order.
pub fn retain_kinds(rows: Vec<RecordHistoryModel>, kinds: &Vec<String>) -> (out: Vec<
    RecordHistoryModel,
>)
    ensures
        out@ == rows@.filter(of_kinds(texts_of(kinds@))),
{
    let ghost input = rows@;
    let ghost pred = of_kinds(texts_of(kinds@));
    let mut out: Vec<RecordHistoryModel> = Vec::new();
    for row in it: rows
        invariant
            input == it.seq(),
            pred == of_kinds(texts_of(kinds@)),
            out@ == input.take(it.index() as int).filter(pred),
    {
        let ghost i = it.index() as int;
        proof {
            assert(input.take(i + 1) =~= input.take(i).push(row));
            input.take(i).lemma_filter_push(row, pred);
        }
        if row_kind_matches(&row, kinds) {
            out.push(row);
        }
    }
    proof {
        assert(input.take(input.len() as int) =~= input);
    }
    out
}

/// The page window of a planned page: which slice of the listed history was
/// taken, and the clamped arguments it was taken with.
pub struct HistoryPageWindow {
    offset: u32,
    limit: u32,
    total_rows: u64,
    fetched: u32,
}

impl HistoryPageWindow {
    #[verifier::type_invariant]
    spec fn within_bounds(self) -> bool {
        &&& self.offset <= MAX_HISTORY_PAGE_OFFSET
        &&& 1 <= self.limit <= MAX_HISTORY_PAGE_LIMIT
        &&& self.total_rows <= MAX_HISTORY_SCAN
        &&& self.fetched <= self.limit + 1
    }

    /// Clamped zero-based offset of the first row.
    pub closed spec fn spec_offset(self) -> int {
        self.offset as int
    }

    /// Clamped page size.
    pub closed spec fn spec_limit(self) -> int {
        self.limit as int
    }

    /// Length of the listed history (after kind filter and scan cap).
    pub closed spec fn spec_total_rows(self) -> int {
        self.total_rows as int
    }

    /// Rows taken for the page (up to one more than the page size).
    pub closed spec fn spec_fetched(self) -> int {
        self.fetched as int
    }

    /// Clamped zero-based offset of the first row.
    pub fn offset(&self) -> (r: u32)
        ensures
            r == self.spec_offset(),
    {
        self.offset
    }

    /// Clamped page size.
    pub fn limit(&self) -> (r: u32)
        ensures
            r == self.spec_limit(),
    {
        self.limit
    }

    /// Length of the listed history.
    pub fn total_rows(&self) -> (r: u64)
        ensures
            r == self.spec_total_rows(),
    {
        self.total_rows
    }

    /// Rows taken for the page.
    pub fn fetched(&self) -> (r: u32)
        ensures
            r == self.spec_fetched(),
    {
        self.fetched
    }
}

/// Plan one page of a source's history from its authorized rows and the
/// client's page arguments.
///
/// `offset` and `limit` are clamped and `kinds` sanitized; the rows are
/// ordered newest first, narrowed to the kinds, capped at
/// `MAX_HISTORY_SCAN`, and the page takes up to `limit + 1` rows from
/// `offset` (the extra row tells whether more follow).
pub fn plan_history_page(
    rows: Vec<RecordHistoryModel>,
    offset: u32,
    limit: u32,
    kinds: Option<Vec<String>>,
) -> (r: (Vec<RecordHistoryModel>, HistoryPageWindow))
    ensures
        r.1.spec_offset() == clamped_offset(offset as int),
        r.1.spec_limit() == clamped_limit(limit as int),
        r.1.spec_total_rows() == listed_history(rows@, opt_texts(kinds)).len(),
        r.0@ == window(
            listed_history(rows@, opt_texts(kinds)),
            clamped_offset(offset as int),
            clamped_limit(limit as int) + 1,
        ),
        r.1.spec_fetched() == r.0@.len(),
{
    let ghost all_rows = rows@;
    let ghost raw_kinds = opt_texts(kinds);
    let limit = clamp_history_page_limit(limit);
    let offset = clamp_history_page_offset(offset);
    let wanted = sanitize_kind_filter(kinds);
    let sorted = sort_newest_first(rows);
    let mut listed = match wanted {
        Some(ks) => retain_kinds(sorted, &ks),
        None => sorted,
    };
    assert(listed@ == rows_of_kinds(newest_first(all_rows), sanitized_kinds(raw_kinds)));
    listed.truncate(MAX_HISTORY_SCAN as usize);
    assert(listed@ == listed_history(all_rows, raw_kinds));
    let total = listed.len();
    let start = if (offset as usize) <= total {
        offset as usize
    } else {
        total
    };
    let mut page_rows = listed.split_off(start);
    let fetch_n: usize = limit as usize + 1;
    page_rows.truncate(fetch_n);
    let fetched = page_rows.len();
    proof {
        assert(page_rows@ =~= window(listed_history(all_rows, raw_kinds), offset as int, limit + 1));
    }
    let window = HistoryPageWindow {
        offset,
        limit,
        total_rows: total as u64,
        fetched: fetched as u32,
    };
    (page_rows, window)
}

/// One page of a paged list, with the paging metadata the timeline reads.
#[derive(Debug, Clone, PartialEq, Eq)]
pub struct Page<T> {
    /// The items of this page, in list order.
    pub items: Vec<T>,
    /// Whether rows follow this page.
    pub has_more: bool,
    /// Length of the whole list, when known.
    pub total_count: Option<u64>,
    /// Offset the next request should use, when known.
    pub next_request_offset: Option<u32>,
}

/// `page` is the page [`assemble_history_page`] builds from `window` and
/// `items`.
pub open spec fn is_assembled_page<T>(window: HistoryPageWindow, items: Seq<T>, page: Page<T>) -> bool {
    &&& page.items@ == (if items.len() <= window.spec_limit() {
        items
    } else {
        items.take(window.spec_limit())
    })
    &&& page.has_more == (window.spec_fetched() > window.spec_limit() || window.spec_offset()
        + page.items@.len() < window.spec_total_rows())
    &&& page.total_count == Some(window.spec_total_rows() as u64)
    &&& page.next_request_offset == Some((window.spec_offset() + page.items@.len()) as u32)
}

/// Finish a planned page from the rows' mapped items (one item per fetched
/// row, in order).
///
/// At most `limit` items are kept. `has_more` holds when the window fetched
/// the extra row or the kept items end before the listed history does; the
/// next request offset is the clamped offset plus the items kept, so the next
/// page starts right after this page's last item.
pub fn assemble_history_page<T>(window: &HistoryPageWindow, items: Vec<T>) -> (page: Page<T>)
    ensures
        page.items@ == (if items@.len() <= window.spec_limit() {
            items@
        } else {
            items@.take(window.spec_limit())
        }),
        page.has_more == (window.spec_fetched() > window.spec_limit() || window.spec_offset()
            + page.items@.len() < window.spec_total_rows()),
        page.total_count == Some(window.spec_total_rows() as u64),
        page.next_request_offset == Some((window.spec_offset() + page.items@.len()) as u32),
{
    proof {
        use_type_invariant(window);
    }
    let mut items = items;
    let limit = window.limit();
    items.truncate(limit as usize);
    let items_returned = items.len();
    let offset = window.offset();
    let fetched = window.fetched();
    let total = window.total_rows();
    let has_more = fetched > limit || (offset as u64) + (items_returned as u64) < total;
    Page {
        items,
        has_more,
        total_count: Some(total),
        next_request_offset: Some(offset + items_returned as u32),
    }
}

/// Client-visible failure of a page request.
#[derive(Debug, Clone, Copy, PartialEq, Eq, Structural)]
pub enum HistoryPageError {
    /// No session on the request.
    AuthenticationRequired,
    /// Parent authorization failed (missing, unsupported or denied source).
    AccessDenied,
    /// Any internal failure; details stay off the wire.
    LoadFailed,
}

/// The message a page failure shows the client.
pub open spec fn page_error_message(e: HistoryPageError) -> Seq<char> {
    match e {
        HistoryPageError::AuthenticationRequired => AUTHENTICATION_REQUIRED@,
        HistoryPageError::AccessDenied => HISTORY_ACCESS_DENIED@,
        HistoryPageError::LoadFailed => HISTORY_LOAD_FAILED@,
    }
}

impl HistoryPageError {
    /// The client-visible message; never carries store or table details.
    pub fn message(&self) -> (r: String)
        ensures
            r@ == page_error_message(*self),
    {
        match self {
            HistoryPageError::AuthenticationRequired => String::from_str(AUTHENTICATION_REQUIRED),
            HistoryPageError::AccessDenied => String::from_str(HISTORY_ACCESS_DENIED),
            HistoryPageError::LoadFailed => String::from_str(HISTORY_LOAD_FAILED),
        }
    }
}

/// A page request needs a session user.
pub fn require_session(session_user_id: &Option<String>) -> (r: Result<(), HistoryPageError>)
    ensures
        r == (if session_user_id.is_some() {
            Ok(())
        } else {
            Err(HistoryPageError::AuthenticationRequired)
        }),
{
    match session_user_id {
        Some(_) => Ok(()),
        None => Err(HistoryPageError::AuthenticationRequired),
    }
}

/// The sanitized client error for any internal failure.
pub fn client_err() -> (r: HistoryPageError)
    ensures
        r == HistoryPageError::LoadFailed,
{
    HistoryPageError::LoadFailed
}

/// The client error for a failed history read: access denials keep the
/// access-denied message, everything else is collapsed to the load failure.
pub open spec fn page_error_of(e: HistoryError) -> HistoryPageError {
    if e is AccessDenied {
        HistoryPageError::AccessDenied
    } else {
        HistoryPageError::LoadFailed
    }
}

/// The client error for a failed history read (see [`page_error_of`]).
pub fn page_error_for(e: &HistoryError) -> (r: HistoryPageError)
    ensures
        r == page_error_of(*e),
{
    match e {
        HistoryError::AccessDenied { .. } => HistoryPageError::AccessDenied,
        HistoryError::Query { .. } => client_err(),
    }
}

/// Does a page failure message mean the viewer may not see this history
/// (access denied or no session), rather than a load failure?
pub fn is_history_acl_error(message: &str) -> (r: bool)
    ensures
        r == (has_infix(message@, "Not authorized"@) || has_infix(
            message@,
            "Authentication required"@,
        )),
{
    contains_text(message, "Not authorized") || contains_text(message, "Authentication required")
}

} // verus!
