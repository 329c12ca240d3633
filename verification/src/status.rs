//! Response statuses that the handlers can produce, and the mapping from
//! write outcomes (rows affected) to a status.

use vstd::prelude::*;

verus! {

/// The coarse response statuses of the service.
#[derive(Clone, Copy, Debug, PartialEq, Eq, Structural)]
pub enum Status {
    Success,
    Created,
    NotFound,
    ServerError,
}

impl Status {
    /// The numeric code of each status.
    pub fn code(&self) -> (c: u16)
        ensures
            c == match *self {
                Status::Success => 200u16,
                Status::Created => 201u16,
                Status::NotFound => 404u16,
                Status::ServerError => 500u16,
            },
    {
        match *self {
            Status::Success => 200,
            Status::Created => 201,
            Status::NotFound => 404,
            Status::ServerError => 500,
        }
    }
}

/// Maps the outcome of a write keyed by one identifier to a status:
/// no row touched means the identifier was absent.
pub fn write_status(rows_affected: u64) -> (s: Status)
    ensures
        s == Status::NotFound <==> rows_affected == 0,
        s == Status::Success <==> rows_affected > 0,
{
    if rows_affected == 0 {
        Status::NotFound
    } else {
        Status::Success
    }
}

} // verus!
