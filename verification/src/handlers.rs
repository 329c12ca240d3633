//! The five request handlers: health check, create, list with pagination,
//! update, and delete. Each validates its input, issues one store
//! operation, and maps the outcome to a response status.

use vstd::prelude::*;

use crate::quote::CreateQuote;
use crate::quote::Quote;
use crate::quote::QuoteView;
use crate::quote::fresh_id;
use crate::quote::now_timestamp;
use crate::status::Status;
use crate::status::write_status;
use crate::store::QuoteStore;
use crate::store::contains_id;
use crate::store::page_slice;
use crate::utils::Pagination;

verus! {

/// The liveness probe: no input, no side effect, always a success status.
pub fn health_check() -> (s: Status)
    ensures
        s == Status::Success,
{
    Status::Success
}

/// The pagination parameters actually used: the given ones, or the defaults
/// when the request carried none.
pub open spec fn resolved(pagination: Option<Pagination>) -> Pagination {
    match pagination {
        Option::Some(p) => p,
        Option::None => Pagination { page: 1, per_page: 30 },
    }
}

/// Handles a create request whose fresh identifier and creation time are
/// already drawn: builds the record and inserts it keyed by the identifier.
/// When the identifier is not yet present the response is 201 with the
/// created record; a collision makes the insert fail, answered as the
/// generic server error with no body and no change to the store.
pub fn create_quote_at(store: &mut QuoteStore, input: CreateQuote, id: u128, now: i64) -> (r: (
    Status,
    Option<Quote>,
))
    requires
        old(store).wf(),
    ensures
        final(store).wf(),
        !contains_id(old(store)@, id) ==> r.0 == Status::Created && (r.1 matches Some(q)
            && q@ == (QuoteView {
            id,
            username: input.username@,
            quote: input.quote@,
            inserted_at: now,
            updated_at: now,
        }) && final(store)@ == old(store)@.push(q@)),
        contains_id(old(store)@, id) ==> r.0 == Status::ServerError && r.1 is None && final(store)@ == old(store)@,
{
    let CreateQuote { username, quote } = input;
    let q = Quote::new_at(username, quote, id, now);
    let created = q.duplicate();
    if store.insert(q) {
        (Status::Created, Some(created))
    } else {
        (Status::ServerError, None)
    }
}

/// The create handler: draws a fresh identifier and the current time, builds
/// the record per the record model, and persists it. On success the response
/// is 201 with the full created record, whose identifier differs from every
/// record already present and whose two timestamps are equal; on a failed
/// insert, the generic server error with no body and no change to the store.
/// Only a collision of the drawn identifier can fail the insert, so on an
/// empty store a create always succeeds.
pub fn create_quote(store: &mut QuoteStore, input: CreateQuote) -> (r: (Status, Option<Quote>))
    requires
        old(store).wf(),
    ensures
        final(store).wf(),
        r.0 == Status::Created || r.0 == Status::ServerError,
        old(store)@.len() == 0 ==> r.0 == Status::Created,
        r.0 == Status::Created ==> (r.1 matches Some(q) && q@.username == input.username@
            && q@.quote == input.quote@ && q@.inserted_at == q@.updated_at && !contains_id(
            old(store)@,
            q@.id,
        ) && final(store)@ == old(store)@.push(q@)),
        r.0 == Status::ServerError ==> r.1 is None && final(store)@ == old(store)@,
{
    let id = fresh_id();
    let now = now_timestamp();
    create_quote_at(store, input, id, now)
}

/// The list handler: resolves absent pagination parameters to the defaults,
/// clamps them, and returns at most `per_page` records, skipping
/// `(page - 1) * per_page`, in store order. A window past the end of the
/// data is empty, never an error.
pub fn read_quotes(store: &QuoteStore, pagination: Option<Pagination>) -> (r: Vec<Quote>)
    ensures
        r@.len() == page_slice(store@, resolved(pagination)).len(),
        forall|i: int|
            0 <= i < r@.len() ==> #[trigger] r@[i]@ == page_slice(store@, resolved(pagination))[i],
{
    let p = match pagination {
        Some(p) => p,
        None => Pagination::default(),
    };
    let (lo, hi) = p.window(store.len());
    store.select(lo, hi)
}

/// Handles an update request whose update time is already read: sets the
/// texts and the update time of the record matching the path identifier,
/// leaving its identifier and insertion time alone. An absent identifier is
/// answered as not-found, with no record mutated; a present one as success
/// with no body.
pub fn update_quote_at(store: &mut QuoteStore, id: u128, input: CreateQuote, now: i64) -> (s:
    Status)
    requires
        old(store).wf(),
    ensures
        final(store).wf(),
        s == Status::NotFound <==> !contains_id(old(store)@, id),
        s == Status::Success <==> contains_id(old(store)@, id),
        !contains_id(old(store)@, id) ==> final(store)@ == old(store)@,
        contains_id(old(store)@, id) ==> exists|j: int|
            0 <= j < old(store)@.len() && #[trigger] old(store)@[j].id == id && final(store)@ == old(store)@.update(j, (QuoteView {
                id,
                username: input.username@,
                quote: input.quote@,
                inserted_at: old(store)@[j].inserted_at,
                updated_at: now,
            })),
{
    let CreateQuote { username, quote } = input;
    let n = store.update(id, username, quote, now);
    write_status(n)
}

/// The update handler: reads the current time and rewrites the texts and
/// update time of the record matching the path identifier; its identifier
/// and insertion time are untouched. Not-found when the identifier is
/// absent, in which case no record is mutated.
pub fn update_quote(store: &mut QuoteStore, id: u128, input: CreateQuote) -> (s: Status)
    requires
        old(store).wf(),
    ensures
        final(store).wf(),
        s == Status::NotFound <==> !contains_id(old(store)@, id),
        s == Status::Success <==> contains_id(old(store)@, id),
        !contains_id(old(store)@, id) ==> final(store)@ == old(store)@,
        contains_id(old(store)@, id) ==> exists|j: int, t: i64|
            0 <= j < old(store)@.len() && old(store)@[j].id == id && final(store)@ == #[trigger] old(store)@.update(j, (QuoteView {
                id,
                username: input.username@,
                quote: input.quote@,
                inserted_at: old(store)@[j].inserted_at,
                updated_at: t,
            })),
{
    let now = now_timestamp();
    update_quote_at(store, id, input, now)
}

/// The delete handler: removes the record matching the path identifier.
/// Not-found when the identifier is absent, in which case the store is
/// unchanged — so a repeated delete of the same identifier is not-found on
/// every later call; success with no body when one record was removed, after
/// which the identifier is absent.
pub fn delete_quote(store: &mut QuoteStore, id: u128) -> (s: Status)
    requires
        old(store).wf(),
    ensures
        final(store).wf(),
        s == Status::NotFound <==> !contains_id(old(store)@, id),
        s == Status::Success <==> contains_id(old(store)@, id),
        !contains_id(old(store)@, id) ==> final(store)@ == old(store)@,
        contains_id(old(store)@, id) ==> exists|j: int|
            0 <= j < old(store)@.len() && #[trigger] old(store)@[j].id == id && final(store)@ == old(store)@.remove(j),
        !contains_id(final(store)@, id),
{
    let n = store.delete(id);
    write_status(n)
}

} // verus!
