//! Newest-first ordering of history rows: a stable sort by `changed_at`,
//! descending, with the facts the pages rely on.

use vstd::prelude::*;

use crate::instant::instant_after;
use crate::model::RecordHistoryModel;

verus! {

/// Strictly newer than: `a` changed after `b`.
pub open spec fn newer(a: RecordHistoryModel, b: RecordHistoryModel) -> bool {
    instant_after(a.changed_at@, b.changed_at@)
}

/// `x` inserted into `s` before the first row it is strictly newer than
/// (after every row at least as new).
pub open spec fn insert_newest(s: Seq<RecordHistoryModel>, x: RecordHistoryModel) -> Seq<
    RecordHistoryModel,
>
    decreases s.len(),
{
    if s.len() == 0 {
        seq![x]
    } else if newer(x, s[0]) {
        seq![x] + s
    } else {
        seq![s[0]] + insert_newest(s.drop_first(), x)
    }
}

/// The rows ordered newest first; rows with the same `changed_at` keep their
/// input order (a stable sort by `changed_at`, descending).
pub open spec fn newest_first(s: Seq<RecordHistoryModel>) -> Seq<RecordHistoryModel>
    decreases s.len(),
{
    if s.len() == 0 {
        s
    } else {
        insert_newest(newest_first(s.drop_last()), s.last())
    }
}

proof fn lemma_insert_newest_at(s: Seq<RecordHistoryModel>, x: RecordHistoryModel, pos: int)
    requires
        0 <= pos <= s.len(),
        forall|j: int| 0 <= j < pos ==> !newer(x, #[trigger] s[j]),
        pos == s.len() || newer(x, s[pos]),
    ensures
        insert_newest(s, x) == s.insert(pos, x),
    decreases pos,
{
    if pos == 0 {
        assert(s.insert(0, x) =~= seq![x] + s);
    } else {
        let t = s.drop_first();
        assert forall|j: int| 0 <= j < pos - 1 implies !newer(x, #[trigger] t[j]) by {
            assert(t[j] == s[j + 1]);
        }
        if pos < s.len() {
            assert(t[pos - 1] == s[pos]);
        }
        assert(!newer(x, s[0]));
        lemma_insert_newest_at(t, x, pos - 1);
        assert(s.insert(pos, x) =~= seq![s[0]] + t.insert(pos - 1, x));
    }
}

/// Where [`insert_newest`] places `x` in `s`.
pub open spec fn newest_insert_pos(s: Seq<RecordHistoryModel>, x: RecordHistoryModel) -> int
    decreases s.len(),
{
    if s.len() == 0 || newer(x, s[0]) {
        0
    } else {
        1 + newest_insert_pos(s.drop_first(), x)
    }
}

/// No row is strictly newer than a row before it.
pub open spec fn newest_first_ordered(s: Seq<RecordHistoryModel>) -> bool {
    forall|i: int, j: int| 0 <= i < j < s.len() ==> !newer(#[trigger] s[j], #[trigger] s[i])
}

pub proof fn lemma_newest_insert_pos(s: Seq<RecordHistoryModel>, x: RecordHistoryModel)
    ensures
        0 <= newest_insert_pos(s, x) <= s.len(),
        forall|j: int| 0 <= j < newest_insert_pos(s, x) ==> !newer(x, #[trigger] s[j]),
        newest_insert_pos(s, x) == s.len() || newer(x, s[newest_insert_pos(s, x)]),
        insert_newest(s, x) == s.insert(newest_insert_pos(s, x), x),
    decreases s.len(),
{
    if s.len() == 0 || newer(x, s[0]) {
        assert(s.insert(0, x) =~= seq![x] + s);
    } else {
        let t = s.drop_first();
        lemma_newest_insert_pos(t, x);
        let p = newest_insert_pos(t, x);
        assert forall|j: int| 0 <= j < p + 1 implies !newer(x, #[trigger] s[j]) by {
            if j > 0 {
                assert(s[j] == t[j - 1]);
            }
        }
        if p + 1 < s.len() {
            assert(s[p + 1] == t[p]);
        }
        assert(s.insert(p + 1, x) =~= seq![s[0]] + t.insert(p, x));
    }
}

/// Inserting into a newest-first sequence keeps it newest first and adds
/// exactly `x`.
pub proof fn lemma_insert_newest_keeps_order(s: Seq<RecordHistoryModel>, x: RecordHistoryModel)
    requires
        newest_first_ordered(s),
    ensures
        newest_first_ordered(insert_newest(s, x)),
        insert_newest(s, x).to_multiset() == s.to_multiset().insert(x),
{
    lemma_newest_insert_pos(s, x);
    let p = newest_insert_pos(s, x);
    let r = insert_newest(s, x);
    vstd::seq_lib::to_multiset_insert(s, p, x);
    assert forall|i: int, j: int| 0 <= i < j < r.len() implies !newer(
        #[trigger] r[j],
        #[trigger] r[i],
    ) by {
        if j < p {
            assert(r[i] == s[i] && r[j] == s[j]);
        } else if j == p {
            assert(r[i] == s[i] && r[j] == x);
        } else if i < p {
            assert(r[i] == s[i] && r[j] == s[j - 1]);
        } else if i == p {
            assert(r[i] == x && r[j] == s[j - 1]);
            assert(!newer(s[j - 1], s[p]));
        } else {
            assert(r[i] == s[i - 1] && r[j] == s[j - 1]);
        }
    }
}

/// [`newest_first`] orders every row sequence newest first and neither
/// drops nor adds rows.
pub proof fn lemma_newest_first_sorts(s: Seq<RecordHistoryModel>)
    ensures
        newest_first_ordered(newest_first(s)),
        newest_first(s).to_multiset() == s.to_multiset(),
        newest_first(s).len() == s.len(),
    decreases s.len(),
{
    broadcast use vstd::seq_lib::group_to_multiset_ensures;

    if s.len() == 0 {
    } else {
        let rest = s.drop_last();
        lemma_newest_first_sorts(rest);
        lemma_insert_newest_keeps_order(newest_first(rest), s.last());
        assert(s =~= rest.push(s.last()));
        vstd::seq_lib::to_multiset_build(rest, s.last());
        vstd::seq_lib::to_multiset_len(newest_first(s));
        vstd::seq_lib::to_multiset_len(s);
    }
}

/// Filtering a newest-first sequence keeps it newest first.
pub proof fn lemma_filter_keeps_order(
    s: Seq<RecordHistoryModel>,
    pred: spec_fn(RecordHistoryModel) -> bool,
)
    requires
        newest_first_ordered(s),
    ensures
        newest_first_ordered(s.filter(pred)),
    decreases s.len(),
{
    reveal(Seq::filter);
    if s.len() > 0 {
        let rest = s.drop_last();
        assert(newest_first_ordered(rest)) by {
            assert forall|i: int, j: int| 0 <= i < j < rest.len() implies !newer(
                #[trigger] rest[j],
                #[trigger] rest[i],
            ) by {
                assert(rest[i] == s[i] && rest[j] == s[j]);
            }
        }
        lemma_filter_keeps_order(rest, pred);
        let f = rest.filter(pred);
        if pred(s.last()) {
            let r = f.push(s.last());
            assert forall|i: int, j: int| 0 <= i < j < r.len() implies !newer(
                #[trigger] r[j],
                #[trigger] r[i],
            ) by {
                if j == r.len() - 1 {
                    assert(f.contains(r[i]));
                    rest.lemma_filter_contains_rev(pred, r[i]);
                    let k = choose|k: int| 0 <= k < rest.len() && rest[k] == r[i];
                    assert(s[k] == r[i]);
                    assert(!newer(s[s.len() - 1], s[k]));
                } else {
                    assert(r[i] == f[i] && r[j] == f[j]);
                }
            }
        }
    }
}

/// Any contiguous part of a newest-first sequence is newest first.
pub proof fn lemma_subrange_keeps_order(s: Seq<RecordHistoryModel>, from: int, to: int)
    requires
        newest_first_ordered(s),
        0 <= from <= to <= s.len(),
    ensures
        newest_first_ordered(s.subrange(from, to)),
{
    let r = s.subrange(from, to);
    assert forall|i: int, j: int| 0 <= i < j < r.len() implies !newer(
        #[trigger] r[j],
        #[trigger] r[i],
    ) by {
        assert(r[i] == s[from + i] && r[j] == s[from + j]);
    }
}

/// Index of the first row `x` is strictly newer than (or the length).
fn insertion_point(sorted: &Vec<RecordHistoryModel>, x: &RecordHistoryModel) -> (pos: usize)
    ensures
        pos <= sorted@.len(),
        forall|j: int| 0 <= j < pos ==> !newer(*x, #[trigger] sorted@[j]),
        pos == sorted@.len() || newer(*x, sorted@[pos as int]),
{
    let n = sorted.len();
    let mut i: usize = 0;
    while i < n
        invariant
            n == sorted@.len(),
            i <= n,
            forall|j: int| 0 <= j < i ==> !newer(*x, #[trigger] sorted@[j]),
        decreases n - i,
    {
        if x.changed_at.is_after(&sorted[i].changed_at) {
            return i;
        }
        i = i + 1;
    }
    n
}

/// Order rows newest first (stable for equal `changed_at`).
pub fn sort_newest_first(rows: Vec<RecordHistoryModel>) -> (out: Vec<RecordHistoryModel>)
    ensures
        out@ == newest_first(rows@),
{
    let ghost input = rows@;
    let mut out: Vec<RecordHistoryModel> = Vec::new();
    for row in it: rows
        invariant
            input == it.seq(),
            out@ == newest_first(input.take(it.index() as int)),
    {
        let ghost i = it.index() as int;
        let pos = insertion_point(&out, &row);
        proof {
            lemma_insert_newest_at(out@, row, pos as int);
            let next = input.take(i + 1);
            assert(next.drop_last() =~= input.take(i));
            assert(next.last() == row);
        }
        out.insert(pos, row);
    }
    proof {
        assert(input.take(input.len() as int) =~= input);
    }
    out
}

} // verus!
