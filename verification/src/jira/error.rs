use vstd::prelude::*;

verus! {

/// A response body that does not have the shape that was asked for.
#[derive(Clone, Debug, PartialEq, Eq)]
pub struct DecodeError {
    pub reason: String,
}

/// A chain of pages that cannot be followed to its end.
#[derive(Clone, Copy, Debug, PartialEq, Eq, Structural)]
pub enum PaginationError {
    /// The chain still names a next page after `limit` pages.
    TooManyPages { limit: usize },
    /// A page claims to be the last one and names a next page all the same.
    Malformed,
}

/// Why a request to the remote service produced no usable answer.
#[derive(Clone, Debug, PartialEq, Eq)]
pub enum TransportError {
    /// The request was refused before it was sent: it would not have used an
    /// encrypted channel.
    Insecure,
    /// The connection failed.
    Network { reason: String },
    /// The service answered with a status outside 200..=299.
    Status { code: u16 },
    Decode(DecodeError),
    Pagination(PaginationError),
}

/// Why the comments of a ticket could not be read through the local store.
#[derive(Clone, Debug, PartialEq, Eq)]
pub enum StoreError {
    /// The ticket was never written to the store.
    NotFound,
    /// The store itself failed.
    Io,
    /// The store had no comments and fetching them failed.
    Transport(TransportError),
}

/// A transition that asks for a secondary screen without a field to fill it.
#[derive(Clone, Copy, Debug, PartialEq, Eq, Structural)]
pub enum SchemaError {
    /// The transition carries no field schema at all.
    MissingFields,
    /// No field of the schema is a select field with allowed values.
    NoSelectField,
}

/// An issue link that does not name exactly one linked ticket.
#[derive(Clone, Copy, Debug, PartialEq, Eq, Structural)]
pub enum LinkError {
    BothPopulated,
    NeitherPopulated,
}

} // verus!
