use vstd::prelude::*;

verus! {

/// What went wrong.
#[derive(Debug, PartialEq, Eq, Structural)]
pub enum ErrorKind {
    /// A lookup found no row.
    NotFound,
    /// The engine refused a statement for breaking a unique or similar constraint.
    ConstraintViolation,
    /// No database handle could be had.
    ConnectionUnavailable,
    /// A statement inside a transaction failed; nothing of it was kept.
    TransactionFailure,
    /// A row did not hold the column types that the record needs.
    Decode,
    /// The engine failed a statement for another reason.
    Engine,
    /// A video's media type does not allow the operation.
    MediaType,
    /// A file name does not follow the expected naming pattern.
    ParseName,
}

/// An error with a readable description and the operation that produced it.
#[derive(Debug)]
pub struct Error {
    pub kind: ErrorKind,
    pub description: String,
    pub location: String,
}

impl Error {
    pub fn new(kind: ErrorKind, description: String, location: &str) -> (r: Error)
        ensures
            r.kind == kind,
            r.description@ == description@,
            r.location@ == location@,
    {
        Error { kind, description, location: String::from_str(location) }
    }
}

} // verus!
