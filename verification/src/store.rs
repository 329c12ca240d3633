//! The store of quote records, modelled as a sequence kept in insertion
//! order. A record has exactly two states, absent and present; identifiers
//! are unique among the present records. Inserting a record whose identifier
//! is already present fails, as a keyed insert does; updates and deletes
//! report how many rows they touched.

use vstd::prelude::*;

use crate::quote::Quote;
use crate::quote::QuoteView;
use crate::utils::Pagination;

verus! {

/// Whether some record in `s` has the identifier `id`.
pub open spec fn contains_id(s: Seq<QuoteView>, id: u128) -> bool {
    exists|j: int| 0 <= j < s.len() && s[j].id == id
}

/// Whether no two records in `s` share an identifier.
pub open spec fn unique_ids(s: Seq<QuoteView>) -> bool {
    forall|j: int, k: int| 0 <= j < k < s.len() ==> s[j].id != s[k].id
}

/// Whether every record in `s` was updated no earlier than it was inserted.
pub open spec fn times_ordered(s: Seq<QuoteView>) -> bool {
    forall|j: int| 0 <= j < s.len() ==> s[j].inserted_at <= s[j].updated_at
}

/// The slice of `s` that the pagination window `p` selects.
pub open spec fn page_slice(s: Seq<QuoteView>, p: Pagination) -> Seq<QuoteView> {
    s.subrange(p.window_lo(s.len() as int), p.window_hi(s.len() as int))
}

/// The stored collection of quote records, in insertion order.
pub struct QuoteStore {
    rows: Vec<Quote>,
}

impl View for QuoteStore {
    type V = Seq<QuoteView>;

    closed spec fn view(&self) -> Seq<QuoteView> {
        Seq::new(self.rows@.len(), |i: int| self.rows@[i]@)
    }
}

impl QuoteStore {
    /// The store's invariant: identifiers are unique among present records.
    pub open spec fn wf(&self) -> bool {
        unique_ids(self@)
    }

    /// An empty store.
    pub fn new() -> (s: QuoteStore)
        ensures
            s@ == Seq::<QuoteView>::empty(),
            s.wf(),
    {
        let s = QuoteStore { rows: Vec::new() };
        proof {
            assert(s@ =~= Seq::<QuoteView>::empty());
        }
        s
    }

    /// How many records are present.
    pub fn len(&self) -> (n: usize)
        ensures
            n == self@.len(),
    {
        self.rows.len()
    }

    /// Whether a record with the identifier `id` is present.
    pub fn contains(&self, id: u128) -> (b: bool)
        ensures
            b == contains_id(self@, id),
    {
        let mut i: usize = 0;
        while i < self.rows.len()
            invariant
                i <= self.rows.len(),
                self@.len() == self.rows@.len(),
                forall|j: int| 0 <= j < i ==> self@[j].id != id,
            decreases self.rows.len() - i,
        {
            if self.rows[i].id == id {
                proof {
                    assert(self@[i as int].id == id);
                }
                return true;
            }
            i += 1;
        }
        false
    }

    /// Inserts a record keyed by its identifier: the insert fails, and the
    /// store is unchanged, exactly when the identifier is already present.
    pub fn insert(&mut self, q: Quote) -> (ok: bool)
        requires
            old(self).wf(),
        ensures
            final(self).wf(),
            ok == !contains_id(old(self)@, q@.id),
            ok ==> final(self)@ == old(self)@.push(q@),
            !ok ==> final(self)@ == old(self)@,
    {
        if self.contains(q.id) {
            false
        } else {
            let ghost before = self@;
            let ghost qv = q@;
            self.rows.push(q);
            proof {
                assert(self@ =~= before.push(qv));
            }
            true
        }
    }

    /// Sets the texts and the update time of the record with identifier
    /// `id`, leaving its identifier and insertion time alone, and returns
    /// how many rows were touched: one when the identifier is present,
    /// zero, with the store unchanged, when it is absent.
    pub fn update(&mut self, id: u128, username: String, quote: String, now: i64) -> (n: u64)
        requires
            old(self).wf(),
        ensures
            final(self).wf(),
            n == 0 || n == 1,
            n == 1 <==> contains_id(old(self)@, id),
            n == 0 ==> final(self)@ == old(self)@,
            n == 1 ==> exists|j: int|
                0 <= j < old(self)@.len() && #[trigger] old(self)@[j].id == id && final(self)@
                    == old(self)@.update(j, (QuoteView {
                    id,
                    username: username@,
                    quote: quote@,
                    inserted_at: old(self)@[j].inserted_at,
                    updated_at: now,
                })),
    {
        let ghost before = self@;
        let mut i: usize = 0;
        while i < self.rows.len()
            invariant
                i <= self.rows.len(),
                before == old(self)@,
                self@ == before,
                unique_ids(before),
                self@.len() == self.rows@.len(),
                forall|j: int| 0 <= j < i ==> self@[j].id != id,
            decreases self.rows.len() - i,
        {
            if self.rows[i].id == id {
                let inserted_at = self.rows[i].inserted_at;
                let replacement = Quote { id, username, quote, inserted_at, updated_at: now };
                let ghost rv = replacement@;
                self.rows[i] = replacement;
                proof {
                    assert(before[i as int].id == id);
                    assert(self@ =~= before.update(i as int, rv));
                    assert forall|a: int| 0 <= a < self@.len() implies #[trigger] self@[a].id
                        == before[a].id by {
                        if a != i as int {
                            assert(self@[a] == before[a]);
                        }
                    };
                    assert(unique_ids(self@));
                }
                return 1;
            }
            i += 1;
        }
        0
    }

    /// Removes the record with identifier `id` and returns how many rows
    /// were touched: one when the identifier was present, zero, with the
    /// store unchanged, when it was absent.
    pub fn delete(&mut self, id: u128) -> (n: u64)
        requires
            old(self).wf(),
        ensures
            final(self).wf(),
            n == 0 || n == 1,
            n == 1 <==> contains_id(old(self)@, id),
            n == 0 ==> final(self)@ == old(self)@,
            n == 1 ==> exists|j: int|
                0 <= j < old(self)@.len() && #[trigger] old(self)@[j].id == id && final(self)@
                    == old(self)@.remove(j),
            !contains_id(final(self)@, id),
    {
        let ghost before = self@;
        let mut i: usize = 0;
        while i < self.rows.len()
            invariant
                i <= self.rows.len(),
                before == old(self)@,
                self@ == before,
                unique_ids(before),
                self@.len() == self.rows@.len(),
                forall|j: int| 0 <= j < i ==> self@[j].id != id,
            decreases self.rows.len() - i,
        {
            if self.rows[i].id == id {
                self.rows.remove(i);
                proof {
                    assert(before[i as int].id == id);
                    assert(self@ =~= before.remove(i as int));
                    assert forall|k: int| 0 <= k < self@.len() implies self@[k].id != id by {
                        if k < i as int {
                            assert(self@[k] == before[k]);
                            assert(before[k].id != before[i as int].id);
                        } else {
                            assert(self@[k] == before[k + 1]);
                            assert(before[k + 1].id != before[i as int].id);
                        }
                    };
                    assert forall|a: int, b: int| 0 <= a < b < self@.len() implies self@[a].id
                        != self@[b].id by {
                        let a0 = if a < i as int {
                            a
                        } else {
                            a + 1
                        };
                        let b0 = if b < i as int {
                            b
                        } else {
                            b + 1
                        };
                        assert(self@[a] == before[a0]);
                        assert(self@[b] == before[b0]);
                        assert(before[a0].id != before[b0].id);
                    };
                }
                return 1;
            }
            i += 1;
        }
        0
    }

    /// Copies out the records with indices in `[lo, hi)`, in store order.
    pub fn select(&self, lo: usize, hi: usize) -> (r: Vec<Quote>)
        requires
            lo <= hi <= self@.len(),
        ensures
            r@.len() == hi - lo,
            forall|i: int| 0 <= i < r@.len() ==> #[trigger] r@[i]@ == self@[lo + i],
    {
        let mut r: Vec<Quote> = Vec::new();
        let mut i: usize = lo;
        while i < hi
            invariant
                lo <= i <= hi <= self@.len(),
                self@.len() == self.rows@.len(),
                r@.len() == i - lo,
                forall|j: int| 0 <= j < r@.len() ==> #[trigger] r@[j]@ == self@[lo + j],
            decreases hi - i,
        {
            r.push(self.rows[i].duplicate());
            i += 1;
        }
        r
    }
}

} // verus!
