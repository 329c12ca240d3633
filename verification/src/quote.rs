//! The quote record: a unique identifier, two caller-supplied text fields,
//! and two server-assigned timestamps.

use vstd::prelude::*;

verus! {

/// The mathematical model of a record: its identifier as a 128-bit integer,
/// its texts as character sequences, its timestamps as whole seconds since
/// the Unix epoch.
pub struct QuoteView {
    pub id: u128,
    pub username: Seq<char>,
    pub quote: Seq<char>,
    pub inserted_at: i64,
    pub updated_at: i64,
}

/// One quote record. `id` is assigned at creation and immutable thereafter;
/// `inserted_at` is set once, at creation; `updated_at` is reset on every
/// successful update. Any string value is accepted for the two texts.
pub struct Quote {
    pub id: u128,
    pub username: String,
    pub quote: String,
    pub inserted_at: i64,
    pub updated_at: i64,
}

impl View for Quote {
    type V = QuoteView;

    open spec fn view(&self) -> QuoteView {
        QuoteView {
            id: self.id,
            username: self.username@,
            quote: self.quote@,
            inserted_at: self.inserted_at,
            updated_at: self.updated_at,
        }
    }
}

/// The caller-supplied part of a record: the two free-form texts.
pub struct CreateQuote {
    pub username: String,
    pub quote: String,
}

/// Relies on uuid::Uuid::new_v4 and Uuid::as_u128: a freshly generated
/// random version-4 identifier, returned as its 128-bit integer value.
/// The value is random, so nothing is promised of it.
#[verifier::external_body]
pub(crate) fn fresh_id() -> u128 {
    uuid::Uuid::new_v4().as_u128()
}

/// Relies on chrono::Utc::now and DateTime::timestamp: the current
/// wall-clock time as whole seconds since the Unix epoch. The value depends
/// on the clock, so nothing is promised of it.
#[verifier::external_body]
pub(crate) fn now_timestamp() -> i64 {
    chrono::Utc::now().timestamp()
}

impl Quote {
    /// Builds the record that a create operation persists, from the
    /// caller-supplied texts and the given identifier and creation time:
    /// both timestamps start equal.
    pub fn new_at(username: String, quote: String, id: u128, now: i64) -> (q: Quote)
        ensures
            q@ == (QuoteView {
                id,
                username: username@,
                quote: quote@,
                inserted_at: now,
                updated_at: now,
            }),
    {
        Quote { id, username, quote, inserted_at: now, updated_at: now }
    }

    /// Builds a new record from caller-supplied texts, with a freshly drawn
    /// identifier and the current time: `inserted_at == updated_at` at the
    /// moment of creation.
    pub fn new(username: String, quote: String) -> (q: Quote)
        ensures
            q@.username == username@,
            q@.quote == quote@,
            q@.inserted_at == q@.updated_at,
    {
        let id = fresh_id();
        let now = now_timestamp();
        Quote::new_at(username, quote, id, now)
    }

    /// A field-for-field copy of the record.
    pub fn duplicate(&self) -> (r: Quote)
        ensures
            r@ == self@,
    {
        Quote {
            id: self.id,
            username: self.username.clone(),
            quote: self.quote.clone(),
            inserted_at: self.inserted_at,
            updated_at: self.updated_at,
        }
    }
}

} // verus!
