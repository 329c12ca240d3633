//! A verified core for a small quote service: the record model, pagination
//! arithmetic, and the handler logic that maps store outcomes to response
//! statuses.

pub mod handlers;
pub mod laws;
pub mod quote;
pub mod status;
pub mod store;
pub mod utils;

pub use quote::CreateQuote;
pub use quote::Quote;
pub use quote::QuoteView;
pub use status::Status;
pub use store::QuoteStore;
pub use utils::Pagination;
