use vstd::prelude::*;

verus! {

/// The four kinds of failure an operation can report.
#[derive(Debug, Clone, Copy, PartialEq, Eq, Structural)]
pub enum Error {
    /// The transport could not complete the exchange.
    NetworkError,
    /// The exchange completed with an HTTP status other than the expected one.
    ResponseError,
    /// A payload did not have the expected shape.
    DataError,
    /// The operation does not fit the local state of the object it was called on.
    IntegrityError,
}

} // verus!
