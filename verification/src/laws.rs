//! Laws of the service, stated over the mathematical model of the store and
//! proved once for all inputs: what a create leaves readable, what an update
//! may and may not change, and how the pagination window behaves at its
//! boundaries.

use vstd::prelude::*;

use crate::quote::QuoteView;
use crate::store::contains_id;
use crate::store::page_slice;
use crate::store::times_ordered;
use crate::store::unique_ids;
use crate::utils::Pagination;

verus! {

/// Law: a record just created is read back unchanged. After appending a
/// record to the store, any pagination window that covers its position
/// returns, at that position, the very record — same identifier, same
/// username, same quote — and the record's identifier is present.
pub proof fn lemma_create_then_read_back(s: Seq<QuoteView>, q: QuoteView, p: Pagination)
    requires
        p.window_lo(s.len() as int + 1) <= s.len() < p.window_hi(s.len() as int + 1),
    ensures
        page_slice(s.push(q), p)[s.len() - p.window_lo(s.len() as int + 1)] == q,
        contains_id(s.push(q), q.id),
{
    assert(s.push(q)[s.len() as int] == q);
}

/// Law: a created record's identifier is assigned once and never reused.
/// Under the identifier generator's contract — a fresh draw lies outside
/// the set of every identifier created before, which includes those of
/// records since deleted — the drawn identifier is absent from the store,
/// so the create succeeds and appends the record, no earlier record ever
/// carried its identifier, and the store's identifiers stay unique.
pub proof fn lemma_created_id_is_never_reused(
    ids_before: Set<u128>,
    s: Seq<QuoteView>,
    q: QuoteView,
)
    requires
        !ids_before.contains(q.id),
        forall|j: int| 0 <= j < s.len() ==> ids_before.contains(#[trigger] s[j].id),
        unique_ids(s),
    ensures
        !contains_id(s, q.id),
        unique_ids(s.push(q)),
{
    assert forall|j: int| 0 <= j < s.len() implies s[j].id != q.id by {
        assert(ids_before.contains(s[j].id));
    };
    let pushed = s.push(q);
    assert forall|a: int, b: int| 0 <= a < b < pushed.len() implies pushed[a].id
        != pushed[b].id by {
        if b < s.len() {
            assert(pushed[a] == s[a] && pushed[b] == s[b]);
        } else {
            assert(pushed[a] == s[a] && pushed[b] == q);
        }
    };
}

/// Law: a delete leaves its identifier absent, so deleting it again is
/// answered not-found, not success, on every later call: when identifiers
/// are unique, the store with the matching record removed holds no record
/// with that identifier.
pub proof fn lemma_delete_leaves_id_absent(s: Seq<QuoteView>, j: int, id: u128)
    requires
        unique_ids(s),
        0 <= j < s.len(),
        s[j].id == id,
    ensures
        !contains_id(s.remove(j), id),
{
    assert forall|k: int| 0 <= k < s.remove(j).len() implies s.remove(j)[k].id != id by {
        if k < j {
            assert(s.remove(j)[k] == s[k]);
            assert(s[k].id != s[j].id);
        } else {
            assert(s.remove(j)[k] == s[k + 1]);
            assert(s[k + 1].id != s[j].id);
        }
    };
}

/// Law: a successful update rewrites only the matched record's texts and
/// update time. Its identifier and insertion time are unchanged, every other
/// record is untouched, and when the new time is no earlier than the
/// record's previous update time — the clock's contract — the update time
/// does not decrease.
pub proof fn lemma_update_changes_only_texts_and_time(
    s: Seq<QuoteView>,
    j: int,
    username: Seq<char>,
    quote: Seq<char>,
    now: i64,
)
    requires
        0 <= j < s.len(),
    ensures
        ({
            let t = s.update(j, (QuoteView {
                id: s[j].id,
                username,
                quote,
                inserted_at: s[j].inserted_at,
                updated_at: now,
            }));
            &&& t.len() == s.len()
            &&& t[j].id == s[j].id
            &&& t[j].inserted_at == s[j].inserted_at
            &&& t[j].username == username
            &&& t[j].quote == quote
            &&& t[j].updated_at == now
            &&& (forall|k: int| 0 <= k < s.len() && k != j ==> t[k] == s[k])
            &&& (s[j].updated_at <= now ==> s[j].updated_at <= t[j].updated_at)
        }),
{
}

/// Law: no record is ever updated before it was inserted. A create starts
/// both timestamps equal, and an update that writes a time no earlier than
/// the record's insertion time — the clock's contract — keeps the order;
/// so `inserted_at <= updated_at` holds of every record at all times.
pub proof fn lemma_times_ordered_is_preserved(
    s: Seq<QuoteView>,
    q: QuoteView,
    j: int,
    username: Seq<char>,
    quote: Seq<char>,
    now: i64,
)
    requires
        times_ordered(s),
        q.inserted_at == q.updated_at,
        0 <= j < s.len(),
        s[j].inserted_at <= now,
    ensures
        times_ordered(s.push(q)),
        times_ordered(s.update(j, (QuoteView {
            id: s[j].id,
            username,
            quote,
            inserted_at: s[j].inserted_at,
            updated_at: now,
        }))),
{
    let pushed = s.push(q);
    assert forall|k: int| 0 <= k < pushed.len() implies pushed[k].inserted_at
        <= pushed[k].updated_at by {
        if k < s.len() {
            assert(pushed[k] == s[k]);
        }
    };
    let updated = s.update(j, (QuoteView {
        id: s[j].id,
        username,
        quote,
        inserted_at: s[j].inserted_at,
        updated_at: now,
    }));
    assert forall|k: int| 0 <= k < updated.len() implies updated[k].inserted_at
        <= updated[k].updated_at by {
        if k != j {
            assert(updated[k] == s[k]);
        }
    };
}

/// Law: the pagination window of page `n` covers exactly the records with
/// indices from `(n - 1) * per_page` up to but excluding `n * per_page`,
/// clipped to the data, once page and page size are clamped; so page 1
/// holds the first `per_page` records and page 2 the next ones.
pub proof fn lemma_page_windows_partition(s: Seq<QuoteView>, p: Pagination)
    ensures
        page_slice(s, p).len() == p.window_hi(s.len() as int) - p.window_lo(s.len() as int),
        forall|i: int|
            0 <= i < page_slice(s, p).len() ==> page_slice(s, p)[i] == s[p.window_lo(
                s.len() as int,
            ) + i],
        p.offset() + p.clamped_per_page() <= s.len() ==> page_slice(s, p).len()
            == p.clamped_per_page(),
{
}

/// Law: a pagination window that starts at or past the end of the data
/// selects nothing — an out-of-range page is an empty list, never an error.
pub proof fn lemma_page_past_end_is_empty(s: Seq<QuoteView>, p: Pagination)
    requires
        p.offset() >= s.len(),
    ensures
        page_slice(s, p).len() == 0,
{
}

/// Law: the clamped pagination parameters lie in their documented ranges.
/// The page is at least 1 and the page size within [1, 100]; a zero page or
/// page size is raised to 1, an oversized page size is lowered to 100, and
/// values already in range pass through unchanged.
pub proof fn lemma_pagination_clamped(p: Pagination)
    ensures
        1 <= p.clamped_page(),
        1 <= p.clamped_per_page() <= 100,
        p.page == 0 ==> p.clamped_page() == 1,
        p.per_page == 0 ==> p.clamped_per_page() == 1,
        p.per_page > 100 ==> p.clamped_per_page() == 100,
        1 <= p.page ==> p.clamped_page() == p.page,
        1 <= p.per_page <= 100 ==> p.clamped_per_page() == p.per_page,
{
}

} // verus!
